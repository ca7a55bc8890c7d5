//! Errors of the driver.
use vstd::prelude::*;

verus! {

/// Ways in which bytes from the peer break the frame format.
#[derive(Clone, Copy, Debug, PartialEq, Eq, Structural)]
pub enum ProtocolErrorKind {
    /// Fewer bytes than a frame header.
    ShortHeader,
    /// An opcode byte that names no message.
    UnknownOpcode,
    /// A declared body length that is negative or above the maximum.
    BadLength,
    /// A body whose length differs from the one its header declares.
    LengthMismatch,
    /// A compressed body on a connection that negotiated no compression.
    CompressedBody,
    /// An ERROR body without a code and a message.
    BadErrorBody,
    /// A message that is not a valid answer at this point of the exchange.
    UnexpectedOpcode,
    /// An answer whose stream identifier is not the request's.
    StreamMismatch,
}

/// An error of the driver.
#[derive(Clone, Debug)]
pub enum CdrsError {
    /// The transport could not connect, read or write.
    Io,
    /// The peer's bytes break the frame format or the exchange.
    Protocol(ProtocolErrorKind),
    /// The server answered with an ERROR frame.
    Server { code: i32, message: Vec<u8> },
    /// The server refused the credentials or the mechanism.
    Auth { code: i32, message: Vec<u8> },
    /// The pool could not hand out a connection.
    Pool,
}

} // verus!
