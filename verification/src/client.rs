//! What a client makes of the server's RPC answers.

use vstd::prelude::*;

use crate::messages::{Error, GetResponse, GetResult, SetResponse};

verus! {

/// What a get gives the caller: the stored bytes, nothing when the key is
/// unbound, or the server's error. The answer must carry a result.
pub fn get_outcome(response: GetResponse) -> (r: Result<Option<Vec<u8>>, Error>)
    requires
        response.result is Some,
    ensures
        match response.result {
            Some(GetResult::MaybeData(m)) => match m.data {
                Some(d) => r matches Ok(Some(v)) && v == d.data,
                None => r matches Ok(None),
            },
            Some(GetResult::Error(e)) => r matches Err(e2) && e2 == e,
            None => false,
        },
{
    match response.result {
        Some(GetResult::MaybeData(maybe_data)) => match maybe_data.data {
            Some(d) => Ok(Some(d.data)),
            None => Ok(None),
        },
        Some(GetResult::Error(e)) => Err(e),
        None => Err(Error { reason: String::new() }),
    }
}

/// What a set gives the caller: success, or the server's error.
pub fn set_outcome(response: SetResponse) -> (r: Result<(), Error>)
    ensures
        match response.error {
            Some(e) => r matches Err(e2) && e2 == e,
            None => r is Ok,
        },
{
    match response.error {
        Some(e) => Err(e),
        None => Ok(()),
    }
}

} // verus!
