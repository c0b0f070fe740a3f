use vstd::prelude::*;

verus! {

/// The kinds of failure the library reports.
#[derive(Debug, Clone, Copy, PartialEq, Eq, Structural)]
pub enum ErrorKind {
    InvalidArgument,
    NotFound,
    Timeout,
    DaemonError,
}

/// An error with its kind and a message giving the failing operation's context.
#[derive(Debug, Clone, PartialEq, Eq)]
pub struct NmError {
    pub kind: ErrorKind,
    pub msg: String,
}

impl NmError {
    pub fn new(kind: ErrorKind, msg: String) -> (r: Self)
        ensures
            r.kind == kind,
            r.msg@ == msg@,
    {
        NmError { kind, msg }
    }

    pub fn kind(&self) -> (r: ErrorKind)
        ensures
            r == self.kind,
    {
        self.kind
    }

    /// The message of the error, as text.
    pub fn to_string(&self) -> (r: String)
        ensures
            r@ == self.msg@,
    {
        self.msg.clone()
    }
}

} // verus!
