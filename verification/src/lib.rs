//! An in-memory key-value store whose clients and server talk through
//! length-prefixed frames: a four-byte big-endian length followed by that
//! many bytes of UTF-8 text.

pub mod buf;
pub mod client;
pub mod connection;
pub mod connection_handler;
pub mod cursor;
pub mod db;
pub mod frame;
pub mod messages;
pub mod protocol;
pub mod service;

pub use connection::Connection;
pub use connection_handler::ConnectionHandler;
pub use cursor::ByteCursor;
pub use db::Db;
pub use frame::{Frame, FrameError};
pub use protocol::{Request, Response};
pub use service::{Service, RS};

use vstd::prelude::*;

verus! {

/// Size in bytes of the length header that precedes every frame.
pub const HEADER_SIZE: usize = 4;

/// Capacity reserved for the payload of a connection's read buffer.
pub const DEFAULT_CAPACITY: usize = 1024;

/// Largest payload, in bytes, that a frame may announce.
pub const MAX_MESSAGE_LENGTH: usize = 4096;

/// The errors of the store, its connections and its clients.
#[derive(Debug, PartialEq, Eq)]
pub enum RadiantError {
    /// Reading or writing a stream failed.
    IOError(String),
    /// The peer went away or the connection broke.
    NetworkError(String),
    /// A frame or a message could not be decoded.
    ParseError(String),
    /// A message is longer than `MAX_MESSAGE_LENGTH`.
    MessageLimit,
    /// Any other failure.
    Other,
}

/// The text carried by the error that a frame with a payload that is not
/// UTF-8 turns into.
pub open spec fn frame_parse_text() -> Seq<char> {
    "cannot parse frame"@
}

/// The store error that a frame error turns into.
pub open spec fn frame_error_to_radiant(e: FrameError, r: RadiantError) -> bool {
    match e {
        FrameError::Incomplete => r is Other,
        FrameError::Parse => r matches RadiantError::ParseError(s) && s@ == frame_parse_text(),
        FrameError::TooLarge => r is MessageLimit,
    }
}

impl From<FrameError> for RadiantError {
    /// Converts a frame error: an incomplete frame is `Other`, a payload that
    /// is not UTF-8 a `ParseError`, a frame over the limit `MessageLimit`.
    fn from(value: FrameError) -> (r: Self)
        ensures
            frame_error_to_radiant(value, r),
    {
        match value {
            FrameError::Incomplete => RadiantError::Other,
            FrameError::Parse => RadiantError::ParseError("cannot parse frame".to_owned()),
            FrameError::TooLarge => RadiantError::MessageLimit,
        }
    }
}

/// What the conversion gives is stated by `frame_error_to_radiant` on `from`
/// itself; it is not an equality with one spec value, since the text of a
/// `ParseError` is a `String` that only its view pins down.
impl vstd::std_specs::convert::FromSpecImpl<FrameError> for RadiantError {
    open spec fn obeys_from_spec() -> bool {
        false
    }

    open spec fn from_spec(v: FrameError) -> Self {
        choose|r: RadiantError| frame_error_to_radiant(v, r)
    }
}

} // verus!
