use vstd::prelude::*;

pub mod agent;
pub mod cad_core;
pub mod cad_io;
pub mod cad_tools;
pub mod canvas;
pub mod geometry;
pub mod renderer;
pub mod session;
pub mod state;
pub mod tools;
pub mod ui;

