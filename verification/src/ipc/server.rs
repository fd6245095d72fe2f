//! The server side: how failures to accept a connection are met.

use crate::text;
use vstd::prelude::*;
use vstd::string::*;

verus! {

/// Why the server ended. The failures are kept as their messages.
#[derive(Debug, PartialEq, Eq)]
pub enum ServerError {
    Io(String),
    Other(String),
}

impl ServerError {
    /// How the error reads in a message.
    pub open spec fn text(self) -> Seq<char> {
        match self {
            ServerError::Io(source) => "IO error: "@ + source@,
            ServerError::Other(source) => "Other error: "@ + source@,
        }
    }

    /// The error as a message.
    pub fn message(&self) -> (res: String)
        ensures
            res@ == self.text(),
    {
        match self {
            ServerError::Io(source) => text::concat("IO error: ", source.as_str()),
            ServerError::Other(source) => text::concat("Other error: ", source.as_str()),
        }
    }
}

/// Why a connection was not accepted.
#[derive(Debug, Clone, Copy, PartialEq, Eq, Structural)]
pub enum AcceptFailure {
    ConnectionRefused,
    ConnectionAborted,
    ConnectionReset,
    Other,
}

/// Whether a failure concerns one connection only.
pub fn is_connection_error(failure: AcceptFailure) -> (res: bool)
    ensures
        res == (failure != AcceptFailure::Other),
{
    match failure {
        AcceptFailure::ConnectionRefused => true,
        AcceptFailure::ConnectionAborted => true,
        AcceptFailure::ConnectionReset => true,
        AcceptFailure::Other => false,
    }
}

/// How many milliseconds to wait before the next connection is accepted: none
/// after a failure of one connection, a second after any other, such as running
/// out of file descriptors.
pub fn handle_accept_error(failure: AcceptFailure) -> (res: u64)
    ensures
        res == if failure == AcceptFailure::Other {
            1000u64
        } else {
            0u64
        },
{
    if is_connection_error(failure) {
        return 0;
    }
    1000
}

} // verus!
