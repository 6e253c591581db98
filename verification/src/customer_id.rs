//! Identifiers of the relational store, read and written by the store's own
//! driver.

use crate::model::customer_id_text;
use sqlx::types::Uuid;
use vstd::prelude::*;

verus! {

/// What the driver makes of a text: the sixteen bytes of the identifier that
/// it reads from it, or nothing where it refuses the text.
pub uninterp spec fn parsed_uuid(text: Seq<char>) -> Option<Seq<u8>>;

/// `Uuid::parse_str`: whether a text is read as an identifier, and as which,
/// depends on the text alone. A text that is refused comes with the driver's
/// message, of which nothing is claimed.
#[verifier::external_body]
pub(crate) fn uuid_parse_str(text: &str) -> (parsed: core::result::Result<[u8; 16], String>)
    ensures
        match parsed {
            Ok(id) => parsed_uuid(text@) == Some(id@),
            Err(_) => parsed_uuid(text@) is None,
        },
{
    match Uuid::parse_str(text) {
        Ok(id) => Ok(id.into_bytes()),
        Err(error) => Err(error.to_string()),
    }
}

/// `ToString::to_string` on a `Uuid`: the identifier's bytes in lower-case
/// hexadecimal digits, in five groups with hyphens between them.
#[verifier::external_body]
pub(crate) fn uuid_to_string(id: &[u8; 16]) -> (text: String)
    ensures
        text@ == customer_id_text(id@),
{
    Uuid::from_bytes(*id).to_string()
}

} // verus!
