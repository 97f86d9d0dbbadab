//! The closed set of failures that the engine reports.
use vstd::prelude::*;

verus! {

/// Which input was rejected.
#[derive(Clone, Copy, Debug, PartialEq, Eq, Structural)]
pub enum InputField {
    Url,
    Path,
    Filename,
}

/// A failure of one operation, with the context a caller branches on.
#[derive(Clone, Debug, PartialEq, Eq)]
pub enum LifecycleError {
    /// An empty or malformed path, URL or file name.
    InvalidInput { field: InputField },
    /// The source of an operation does not exist.
    NotFound { path: String },
    /// The source of a move is a directory.
    InvalidSource { path: String },
    /// An entry that must be a directory is something else.
    InvalidState { path: String },
    /// A filesystem step failed.
    IoError { message: String },
    /// The transfer itself failed.
    NetworkError { message: String },
    /// The server answered with a status outside 2xx.
    RemoteError { status: u16 },
}

} // verus!
