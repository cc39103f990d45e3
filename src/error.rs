use vstd::prelude::*;

verus! {

/// Type of error
#[derive(Copy, Clone, Debug, PartialEq, Eq, Structural)]
pub enum ErrorKind {
    /// System is already running
    AlreadyRunning,
    /// System monitoring error
    HarnessError,
    /// Error connecting to pipe
    PipeError,
    /// Error while serializing data
    SerializationError,
    /// General I/O errors
    IO,
}

/// System harness error: a kind and a human-readable cause.
#[derive(Clone, Debug)]
pub struct Error {
    pub kind: ErrorKind,
    pub message: String,
}

impl Error {
    pub fn new(kind: ErrorKind, message: &str) -> (r: Error)
        ensures
            r.kind == kind,
            r.message@ == message@,
    {
        Error { kind, message: message.to_string() }
    }

    pub fn kind(&self) -> (r: ErrorKind)
        ensures
            r == self.kind,
    {
        self.kind
    }

    /// The human-readable cause of the error.
    pub fn to_string(&self) -> (r: String)
        ensures
            r@ == self.message@,
    {
        self.message.clone()
    }
}

} // verus!
