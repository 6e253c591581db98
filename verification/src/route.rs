//! What a client is answered when serving its request failed.

use crate::error::{ClientError, Error};
use vstd::prelude::*;

verus! {

/// What a client is told of a failure: its tag, written under the key
/// `type`.
#[derive(Debug, PartialEq, Eq)]
pub struct ClientErrorDetail {
    pub kind: String,
}

/// The body of the answer to a failed request: the detail, written under the
/// key `error`.
#[derive(Debug, PartialEq, Eq)]
pub struct ClientErrorBody {
    pub error: ClientErrorDetail,
}

/// Replaces the answer to a failed request. Where serving the request left a
/// failure behind, the client is answered with the failure's status and a
/// body that holds its tag and nothing else; where it left none, the answer
/// stays as it is.
pub fn main_response_mapper(service_error: Option<&Error>) -> (answer: Option<
    (u16, ClientErrorBody),
>)
    ensures
        match service_error {
            Some(failure) => answer is Some && answer->Some_0.0 == failure.client_status()
                && answer->Some_0.1.error.kind@ == failure.client_error().name(),
            None => answer is None,
        },
{
    match service_error {
        Some(failure) => {
            let (status, client_error): (u16, ClientError) = failure.client_status_and_error();
            let body = ClientErrorBody {
                error: ClientErrorDetail { kind: client_error.as_ref().to_owned() },
            };
            Some((status, body))
        },
        None => None,
    }
}

} // verus!
