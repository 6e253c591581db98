//! Answers that need no store.

use crate::status::{STATUS_FORBIDDEN, STATUS_OK};
use crate::response::GenericResponse;
use vstd::prelude::*;

verus! {

/// The message of the liveness answer.
pub open spec fn health_message() -> Seq<char> {
    "Build CRUD API with Rust and MongoDB"@
}

/// The text that answers a request for a path the service does not know.
pub open spec fn unknown_path_text() -> Seq<char> {
    "nothing to see here"@
}

/// The liveness answer: served, a success, with the service's message.
pub fn health_checker_handler() -> (answer: (u16, GenericResponse))
    ensures
        answer.0 == STATUS_OK,
        answer.1.status@ == "success"@,
        answer.1.message@ == health_message(),
{
    let message = "Build CRUD API with Rust and MongoDB";
    (STATUS_OK, GenericResponse { status: "success".to_owned(), message: message.to_owned() })
}

/// The answer to a request for a path the service does not know: forbidden.
pub fn handler_404() -> (answer: (u16, &'static str))
    ensures
        answer.0 == STATUS_FORBIDDEN,
        answer.1@ == unknown_path_text(),
{
    (STATUS_FORBIDDEN, "nothing to see here")
}

} // verus!
