//! The ways in which a relay session fails.

use vstd::prelude::*;

verus! {

/// Why a relay session cannot go on. Every kind is fatal to the session.
#[derive(Clone, Copy, Debug, PartialEq, Eq, Structural)]
pub enum RelayError {
    /// A banner or reply did not have the expected shape.
    ProtocolViolation,
    /// A numeric field, a move, a seek line or a square was malformed.
    ParseError,
    /// One of the two line streams ended.
    StreamClosed,
    /// The server refused the credentials.
    AuthFailure,
    /// The engine cannot be set to a value that the game requires.
    OptionMismatch,
}

impl RelayError {
    /// A short description of the error kind.
    pub fn message(&self) -> (text: &'static str)
        ensures
            text@ == match *self {
                RelayError::ProtocolViolation => "unexpected reply from server"@,
                RelayError::ParseError => "malformed line"@,
                RelayError::StreamClosed => "stream closed unexpectedly"@,
                RelayError::AuthFailure => "authentication failure"@,
                RelayError::OptionMismatch => "engine option cannot be set"@,
            },
    {
        match self {
            RelayError::ProtocolViolation => "unexpected reply from server",
            RelayError::ParseError => "malformed line",
            RelayError::StreamClosed => "stream closed unexpectedly",
            RelayError::AuthFailure => "authentication failure",
            RelayError::OptionMismatch => "engine option cannot be set",
        }
    }
}

} // verus!
