//! Errors surfaced by the gateway, one kind per row of the error taxonomy.

use vstd::prelude::*;

verus! {

/// What went wrong, independent of the message text.
#[derive(Clone, Copy, Debug, PartialEq, Eq, Structural)]
pub enum ErrorKind {
    /// The store could not be reached; the connection slot stays empty.
    Connection,
    /// A mutating statement was refused while writes are disabled.
    PolicyViolation,
    /// The caller's arguments were missing or malformed.
    InvalidParams,
    /// The method name is not one the dispatcher knows.
    MethodNotFound,
    /// The store failed while executing a statement.
    Internal,
}

/// An error with its kind and a message for the caller.
#[derive(Debug)]
pub struct GatewayError {
    pub kind: ErrorKind,
    pub message: String,
}

impl ErrorKind {
    /// The JSON-RPC error code that a transport reports for this kind.
    pub fn code(&self) -> (r: i32)
        ensures
            r == match *self {
                ErrorKind::InvalidParams => -32602i32,
                ErrorKind::MethodNotFound => -32601i32,
                _ => -32603i32,
            },
    {
        match self {
            ErrorKind::InvalidParams => -32602,
            ErrorKind::MethodNotFound => -32601,
            _ => -32603,
        }
    }
}

impl GatewayError {
    pub fn new(kind: ErrorKind, message: String) -> (r: GatewayError)
        ensures
            r.kind == kind,
            r.message == message,
    {
        GatewayError { kind, message }
    }
}

} // verus!
