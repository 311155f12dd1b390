//! What can go wrong when a frame is read or handed to the transport.

use vstd::prelude::*;

verus! {

/// An error occuring while parsing a `Message`.
#[derive(Clone, Copy, Debug, PartialEq, Eq, PartialOrd, Structural)]
pub enum ParsingError {
    /// The input had no bytes at all.
    ZeroLengthSlice,
    /// The first byte names no subsystem, or, behind the subsystem that the
    /// wheels and the LED share, the second byte names no part. Holds the
    /// byte that was not recognised.
    InvalidSubsystem(u8),
    /// The subsystem that the wheels and the LED share was named, and no
    /// second byte followed to say which part is meant.
    NoEboxPart,
    /// The frame was recognised and has the wrong length. `part` is 0 for a
    /// subsystem without parts; `length` is the length of the input, or
    /// `u32::MAX` for an input longer than that.
    LengthInconsistency { subsystem: u8, part: u8, length: u32, expected_length: u32 },
    /// The given slice was malformed. No path of the decoder returns this.
    MalformedMessage,
}

/// The error type of `std::io`, as the transport reports it. Nothing in it
/// is read here: a value of it is carried through to the caller.
#[verifier::external_type_specification]
#[verifier::external_body]
pub struct ExIoError(std::io::Error);

/// An error that can occur when sending messages to the rover.
#[derive(Debug)]
pub enum SendError {
    /// The validation of the message failed!
    MessageFailedValidation(ParsingError),
    /// Sending it with the socket resulted in an error.
    SocketError(std::io::Error),
}

impl From<ParsingError> for SendError {
    fn from(error: ParsingError) -> (converted: Self) {
        SendError::MessageFailedValidation(error)
    }
}

impl vstd::std_specs::convert::FromSpecImpl<ParsingError> for SendError {
    open spec fn obeys_from_spec() -> bool {
        true
    }

    open spec fn from_spec(error: ParsingError) -> Self {
        SendError::MessageFailedValidation(error)
    }
}

impl From<std::io::Error> for SendError {
    fn from(error: std::io::Error) -> (converted: Self) {
        SendError::SocketError(error)
    }
}

impl vstd::std_specs::convert::FromSpecImpl<std::io::Error> for SendError {
    open spec fn obeys_from_spec() -> bool {
        true
    }

    open spec fn from_spec(error: std::io::Error) -> Self {
        SendError::SocketError(error)
    }
}

} // verus!
