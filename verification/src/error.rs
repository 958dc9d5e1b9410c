//! The closed set of errors a moderation call can end in.

use vstd::prelude::*;

verus! {

/// Why a moderation call failed. Each variant carries a message as raw bytes;
/// the protocol is byte-oriented, and callers render the bytes as they see fit.
#[derive(Debug, Clone, PartialEq, Eq)]
pub enum ModerationError {
    /// The transport failed, or the service answered with a non-2xx status;
    /// the message then holds the exact status code and body text.
    Http(Vec<u8>),
    /// The response body could not be decoded.
    Parse(Vec<u8>),
    /// A signature could not be produced.
    Signing(Vec<u8>),
    /// Anything else.
    Other(Vec<u8>),
}

impl ModerationError {
    /// The message carried by the error, whatever its kind.
    pub fn message(&self) -> (r: &Vec<u8>)
        ensures
            r@ == match self {
                ModerationError::Http(m) => m@,
                ModerationError::Parse(m) => m@,
                ModerationError::Signing(m) => m@,
                ModerationError::Other(m) => m@,
            },
    {
        match self {
            ModerationError::Http(m) => m,
            ModerationError::Parse(m) => m,
            ModerationError::Signing(m) => m,
            ModerationError::Other(m) => m,
        }
    }
}

} // verus!
