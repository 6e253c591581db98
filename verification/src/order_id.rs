//! Identifiers of the document store, read and written by the store's own
//! driver.

use crate::hex::{hex_bytes, hex_round_trip, hex_text, is_hex_text};
use mongodb::bson::oid::ObjectId;
use std::str::FromStr;
use vstd::prelude::*;

verus! {

/// Whether a text is an order identifier: twenty-four digits.
pub open spec fn is_order_id_text(text: Seq<char>) -> bool {
    text.len() == 24 && is_hex_text(text)
}

/// `ObjectId::from_str`: a text is read as an identifier exactly when it is
/// twenty-four hexadecimal digits, of either case, and the identifier's
/// bytes are then the ones that the digits stand for, pair by pair. A text
/// that is refused comes with the driver's message, of which nothing is
/// claimed.
#[verifier::external_body]
pub(crate) fn object_id_from_str(text: &str) -> (parsed: core::result::Result<[u8; 12], String>)
    ensures
        parsed is Ok <==> is_order_id_text(text@),
        parsed is Ok ==> parsed->Ok_0@ == hex_bytes(text@),
{
    match ObjectId::from_str(text) {
        Ok(id) => Ok(id.bytes()),
        Err(error) => Err(error.to_string()),
    }
}

/// `ObjectId::to_hex`: the identifier's bytes in lower-case hexadecimal
/// digits, two for each byte.
#[verifier::external_body]
pub(crate) fn object_id_to_hex(id: &[u8; 12]) -> (text: String)
    ensures
        text@ == hex_text(id@),
{
    ObjectId::from_bytes(*id).to_hex()
}

/// An order identifier that is written as text is read back as the same
/// identifier: the text of any twelve bytes is an identifier's text, and it
/// stands for those bytes.
pub proof fn order_id_round_trip(id: Seq<u8>)
    requires
        id.len() == 12,
    ensures
        is_order_id_text(hex_text(id)),
        hex_bytes(hex_text(id)) == id,
{
    hex_round_trip(id);
}

} // verus!
