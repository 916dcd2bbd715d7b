use vstd::prelude::*;

verus! {

/// A failed operation on the channel, as the operating system reported it.
#[derive(Debug, Clone, PartialEq, Eq)]
pub struct IoFailure {
    /// The raw OS error code, where there is one.
    pub raw_os_error: Option<i32>,
    /// The error as text.
    pub message: String,
}

/// The shape that a typed extraction asked for.
#[derive(Debug, Copy, Clone, PartialEq, Eq, Structural)]
pub enum Expected {
    Bool,
    I64,
    U64,
    Float,
    String,
    Array,
    Object,
}

/// The shape that a value has.
#[derive(Debug, Copy, Clone, PartialEq, Eq, Structural)]
pub enum ValueKind {
    Null,
    Bool,
    Int,
    Float,
    String,
    Array,
    Object,
}

/// Everything that can go wrong when talking to the player.
#[derive(Debug, Clone, PartialEq)]
pub enum Error {
    /// The channel could not be opened.
    Connect(IoFailure),
    /// The connection is closed: nothing more can be sent or received.
    SocketClosed,
    /// Reading from or writing to the channel failed.
    Io(IoFailure),
    /// An inbound line was not JSON text.
    Json(String),
    /// An inbound message was JSON, but not of the shape the protocol gives it;
    /// the text says what is wrong.
    Malformed(&'static str),
    /// The player answered with an error other than `"success"`.
    Remote(String),
    /// The reply to a command carried no error field at all.
    UnknownResponse,
    /// A value was not of the shape that an extraction asked for.
    TypeMismatch { expected: Expected, found: ValueKind },
}

} // verus!
