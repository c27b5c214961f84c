[package]
name = "rust_cad_framework"
version = "0.1.0"
edition = "2021"
publish = false

[dependencies]
cgmath = "0.18"
bytemuck = { version = "1", features = ["derive"] }
axum = "0.7"
tokio = { version = "1", features = ["rt-multi-thread", "macros", "net", "sync"] }
serde = { version = "1", features = ["derive"] }
serde_json = "1"
parking_lot = "0.12"
env_logger = "0.11"
thiserror = "1"
