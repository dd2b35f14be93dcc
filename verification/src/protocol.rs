//! The requests a client sends over a connection and the responses it gets.

use vstd::prelude::*;

verus! {

/// A client's request.
#[derive(Debug, PartialEq, Eq)]
pub enum Request {
    /// Asks for a `Pong`.
    Ping,
    /// Asks for the value bound to a key.
    Get(String),
    /// Binds a key to a value (`Set` on the wire).
    SetValue(String, Vec<u8>),
}

/// The server's answer to a request.
#[derive(Debug, PartialEq, Eq)]
pub enum Response {
    /// The answer to `Ping`.
    Pong,
    /// The answer to `SetValue` (`Ok` on the wire).
    Okay,
    /// A failure, with its reason.
    Error(String),
    /// The answer to `Get`: the key and its value, empty when it is unbound.
    Get(String, Vec<u8>),
}

} // verus!
