//! Records as the stores hold them.

use crate::hex::{hex_round_trip, hex_text, hex_value};
use crate::response::{CustomerText, OrderText};
use vstd::prelude::*;

verus! {

/// An order of the document store. The identifier is the twelve bytes that
/// the store assigned.
#[derive(Debug, Clone, PartialEq, Eq)]
pub struct OrderModel {
    pub id: [u8; 12],
    pub customer_name: String,
    pub product_name: String,
}

/// A customer of the relational store. The identifier is the sixteen bytes
/// that the store assigned; either name may be missing from the row.
#[derive(Debug, PartialEq, Eq)]
pub struct CustomerModel {
    pub customer_id: [u8; 16],
    pub customer_name: Option<String>,
    pub customer_surname: Option<String>,
}

/// A customer identifier as text: thirty-two lower-case digits in groups of
/// eight, four, four, four and twelve, with a hyphen between the groups.
pub open spec fn customer_id_text(id: Seq<u8>) -> Seq<char> {
    let digits = hex_text(id);
    digits.subrange(0, 8) + seq!['-'] + digits.subrange(8, 12) + seq!['-'] + digits.subrange(
        12,
        16,
    ) + seq!['-'] + digits.subrange(16, 20) + seq!['-'] + digits.subrange(20, 32)
}

/// The text of an optional string, or `fallback` where there is none.
pub open spec fn text_or(value: Option<String>, fallback: Seq<char>) -> Seq<char> {
    match value {
        Some(text) => text@,
        None => fallback,
    }
}

impl OrderModel {
    /// The order as a client sees it: the identifier in digits, the names
    /// unchanged.
    pub open spec fn text(&self) -> OrderText {
        OrderText {
            id: hex_text(self.id@),
            customer_name: self.customer_name@,
            product_name: self.product_name@,
        }
    }
}

impl CustomerModel {
    /// Whether the row holds both names.
    pub open spec fn is_named(&self) -> bool {
        self.customer_name is Some && self.customer_surname is Some
    }

    /// The customer as a listing shows it, where the row holds both names.
    pub open spec fn listed(&self) -> CustomerText
        recommends
            self.is_named(),
    {
        CustomerText {
            id: customer_id_text(self.customer_id@),
            name: self.customer_name->Some_0@,
            surname: self.customer_surname->Some_0@,
        }
    }

    /// The customer as a client sees it, with the given names standing in for
    /// missing ones.
    pub open spec fn text_with(&self, name: Seq<char>, surname: Seq<char>) -> CustomerText {
        CustomerText {
            id: customer_id_text(self.customer_id@),
            name: text_or(self.customer_name, name),
            surname: text_or(self.customer_surname, surname),
        }
    }
}

/// The shape of a customer identifier's text: thirty-six characters, a
/// hyphen at the places 8, 13, 18 and 23 (counting from 0) and a digit at
/// every other place.
pub proof fn customer_id_text_shape(id: Seq<u8>)
    requires
        id.len() == 16,
    ensures
        customer_id_text(id).len() == 36,
        forall|place: int|
            0 <= place < 36 ==> ((#[trigger] customer_id_text(id)[place]) == '-' <==> (place == 8
                || place == 13 || place == 18 || place == 23)),
        forall|place: int|
            0 <= place < 36 && place != 8 && place != 13 && place != 18 && place != 23
                ==> hex_value(#[trigger] customer_id_text(id)[place]) is Some,
{
    hex_round_trip(id);
    let digits = hex_text(id);
    let text = customer_id_text(id);
    assert(hex_value('-') is None);
    assert forall|place: int| 0 <= place < 36 implies ((#[trigger] text[place]) == '-' <==> (place
        == 8 || place == 13 || place == 18 || place == 23)) && (place != 8 && place != 13 && place
        != 18 && place != 23 ==> hex_value(text[place]) is Some) by {
        if place < 8 {
            assert(text[place] == digits[place]);
        } else if place == 8 {
        } else if place < 13 {
            assert(text[place] == digits[place - 1]);
        } else if place == 13 {
        } else if place < 18 {
            assert(text[place] == digits[place - 2]);
        } else if place == 18 {
        } else if place < 23 {
            assert(text[place] == digits[place - 3]);
        } else if place == 23 {
        } else {
            assert(text[place] == digits[place - 4]);
        }
    }
}

} // verus!
