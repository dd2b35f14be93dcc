//! The messages of the store's RPC interface, as plain values.

use vstd::prelude::*;

verus! {

/// A failure reported to the caller, with its reason.
#[derive(Debug, PartialEq, Eq)]
pub struct Error {
    pub reason: String,
}

/// Asks the server to answer.
#[derive(Debug, PartialEq, Eq)]
pub struct PingRequest {}

/// The answer to a ping.
#[derive(Debug, PartialEq, Eq)]
pub struct PingResponse {
    pub error: Option<Error>,
}

/// Asks for the value bound to `key`.
#[derive(Debug, PartialEq, Eq)]
pub struct GetRequest {
    pub key: String,
}

/// A key and the bytes bound to it.
#[derive(Debug, PartialEq, Eq)]
pub struct Data {
    pub key: String,
    pub data: Vec<u8>,
}

/// A value that may be missing.
#[derive(Debug, PartialEq, Eq)]
pub struct MaybeData {
    pub data: Option<Data>,
}

/// What a get found: a value that may be missing, or an error.
#[derive(Debug, PartialEq, Eq)]
pub enum GetResult {
    MaybeData(MaybeData),
    Error(Error),
}

/// The answer to a get.
#[derive(Debug, PartialEq, Eq)]
pub struct GetResponse {
    pub result: Option<GetResult>,
}

/// Asks to bind `key` to `data`.
#[derive(Debug, PartialEq, Eq)]
pub struct SetRequest {
    pub key: String,
    pub data: Vec<u8>,
}

/// The answer to a set.
#[derive(Debug, PartialEq, Eq)]
pub struct SetResponse {
    pub error: Option<Error>,
}

/// Asks to unbind `key`.
#[derive(Debug, PartialEq, Eq)]
pub struct DelRequest {
    pub key: String,
}

/// The answer to a delete.
#[derive(Debug, PartialEq, Eq)]
pub struct DelResponse {
    pub error: Option<Error>,
}

} // verus!
