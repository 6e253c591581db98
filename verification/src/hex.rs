//! Hexadecimal text: how bytes are written as digits and read back.

use vstd::prelude::*;

verus! {

/// The sixteen digits, in the order of their values. Letters are lower case.
pub open spec fn hex_digits() -> Seq<char> {
    seq!['0', '1', '2', '3', '4', '5', '6', '7', '8', '9', 'a', 'b', 'c', 'd', 'e', 'f']
}

/// The half byte at position `index`, counting the high half of the first
/// byte as position 0 and its low half as position 1.
pub open spec fn half_byte(bytes: Seq<u8>, index: int) -> int {
    if index % 2 == 0 {
        bytes[index / 2] as int / 16
    } else {
        bytes[index / 2] as int % 16
    }
}

/// The bytes written as digits, two for each byte, the high half first.
pub open spec fn hex_text(bytes: Seq<u8>) -> Seq<char> {
    Seq::new(2 * bytes.len(), |index: int| hex_digits()[half_byte(bytes, index)])
}

/// The value of a digit. Letters count in either case; any other character
/// is no digit.
pub open spec fn hex_value(digit: char) -> Option<int> {
    if '0' <= digit && digit <= '9' {
        Some(digit as int - '0' as int)
    } else if 'a' <= digit && digit <= 'f' {
        Some(digit as int - 'a' as int + 10)
    } else if 'A' <= digit && digit <= 'F' {
        Some(digit as int - 'A' as int + 10)
    } else {
        None
    }
}

/// Whether the text is made of digits only.
pub open spec fn is_hex_text(text: Seq<char>) -> bool {
    forall|index: int| 0 <= index < text.len() ==> (#[trigger] hex_value(text[index])) is Some
}

/// The bytes that a text of digits stands for: each pair of digits is one
/// byte, the first digit its high half.
pub open spec fn hex_bytes(text: Seq<char>) -> Seq<u8> {
    Seq::new(
        text.len() / 2,
        |index: int|
            (16 * hex_value(text[2 * index]).unwrap() + hex_value(
                text[2 * index + 1],
            ).unwrap()) as u8,
    )
}

/// Each of the sixteen digits has its position as its value.
pub proof fn digit_has_its_value(value: int)
    requires
        0 <= value < 16,
    ensures
        hex_value(hex_digits()[value]) == Some(value),
{
}

/// Bytes that are written as digits are read back as the same bytes: the
/// text is made of digits only, and the bytes that it stands for are the ones
/// that were written.
pub proof fn hex_round_trip(bytes: Seq<u8>)
    ensures
        hex_text(bytes).len() == 2 * bytes.len(),
        is_hex_text(hex_text(bytes)),
        hex_bytes(hex_text(bytes)) == bytes,
{
    let text = hex_text(bytes);
    assert forall|index: int| 0 <= index < text.len() implies (#[trigger] hex_value(
        text[index],
    )) is Some by {
        digit_has_its_value(half_byte(bytes, index));
    }
    assert forall|index: int| 0 <= index < bytes.len() implies hex_bytes(text)[index]
        == bytes[index] by {
        digit_has_its_value(half_byte(bytes, 2 * index));
        digit_has_its_value(half_byte(bytes, 2 * index + 1));
    }
    assert(hex_bytes(text) =~= bytes);
}

} // verus!
