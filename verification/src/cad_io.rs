use vstd::prelude::*;

verus! {

/// `std::io::Error`, declared so that `IOError::Io` can carry it. Nothing is
/// claimed of its contents: the library only holds such a value.
#[verifier::external_type_specification]
#[verifier::external_body]
pub struct ExIoError(std::io::Error);

/// Why saving or loading a drawing failed.
#[derive(Debug)]
pub enum IOError {
    /// The file could not be read or written.
    Io(std::io::Error),
    /// The file's contents are not a drawing; the text says why.
    Serialization(String),
}

/// Saves and loads drawings as JSON files.
pub struct JSONSerializer;

} // verus!
