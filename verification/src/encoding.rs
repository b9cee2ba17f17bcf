//! Hexadecimal text, as it appears in signature headers, cookies and the
//! OAuth `state` parameter.

use vstd::prelude::*;

verus! {

/// `c` is one of `0-9`, `A-F`, `a-f`.
pub open spec fn is_hex_digit(c: u8) -> bool {
    (0x30 <= c <= 0x39) || (0x41 <= c <= 0x46) || (0x61 <= c <= 0x66)
}

/// The number a hexadecimal digit stands for.
pub open spec fn hex_digit_value(c: u8) -> int {
    if 0x30 <= c <= 0x39 {
        c - 0x30
    } else if 0x41 <= c <= 0x46 {
        c - 0x41 + 10
    } else {
        c - 0x61 + 10
    }
}

/// The lower-case digit for a number below sixteen.
pub open spec fn hex_digit(v: int) -> u8 {
    if v < 10 {
        (0x30 + v) as u8
    } else {
        (0x61 + v - 10) as u8
    }
}

/// `text` is an even number of hexadecimal digits.
pub open spec fn is_hex(text: Seq<u8>) -> bool {
    &&& text.len() % 2 == 0
    &&& forall|i: int| 0 <= i < text.len() ==> is_hex_digit(#[trigger] text[i])
}

/// The bytes that hexadecimal `text` stands for: two digits per byte, the
/// high half first.
pub open spec fn hex_decoded(text: Seq<u8>) -> Seq<u8> {
    Seq::new(
        text.len() / 2,
        |i: int| (16 * hex_digit_value(text[2 * i]) + hex_digit_value(text[2 * i + 1])) as u8,
    )
}

/// The lower-case hexadecimal text of `bytes`.
pub open spec fn hex_encoded(bytes: Seq<u8>) -> Seq<u8> {
    Seq::new(
        2 * bytes.len(),
        |i: int|
            if i % 2 == 0 {
                hex_digit(bytes[i / 2] as int / 16)
            } else {
                hex_digit(bytes[i / 2] as int % 16)
            },
    )
}

/// `hex::FromHexError`, the reason why `hex::decode` refused a text. It is
/// carried through unread.
#[verifier::external_type_specification]
#[verifier::external_body]
pub struct ExFromHexError(hex::FromHexError);

/// `hex::decode`: succeeds exactly on an even number of hexadecimal
/// digits of either case, and then yields one byte per pair of digits,
/// the first digit being the high half.
#[verifier::external_body]
fn hex_decode(text: &[u8]) -> (r: Result<Vec<u8>, hex::FromHexError>)
    ensures
        r is Ok <==> is_hex(text@),
        r matches Ok(bytes) ==> bytes@ == hex_decoded(text@),
{
    hex::decode(text)
}

/// `hex::encode`: two lower-case digits per byte, the high half first.
#[verifier::external_body]
fn hex_encode(bytes: &[u8]) -> (text: Vec<u8>)
    ensures
        text@ == hex_encoded(bytes@),
{
    hex::encode(bytes).into_bytes()
}

/// Decodes hexadecimal text. `None` when `text` has an odd length or holds
/// anything but hexadecimal digits.
pub fn decode(text: &[u8]) -> (out: Option<Vec<u8>>)
    ensures
        out is Some <==> is_hex(text@),
        out matches Some(bytes) ==> bytes@ == hex_decoded(text@),
{
    match hex_decode(text) {
        Ok(bytes) => Some(bytes),
        Err(_) => None,
    }
}

/// Encodes bytes as lower-case hexadecimal text.
pub fn encode(bytes: &[u8]) -> (text: Vec<u8>)
    ensures
        text@ == hex_encoded(bytes@),
{
    hex_encode(bytes)
}

/// Decoding undoes encoding: the text of any bytes is valid hexadecimal
/// and stands for those bytes.
pub proof fn lemma_decode_encode(bytes: Seq<u8>)
    ensures
        is_hex(hex_encoded(bytes)),
        hex_decoded(hex_encoded(bytes)) == bytes,
{
    let text = hex_encoded(bytes);
    assert forall|i: int| 0 <= i < text.len() implies is_hex_digit(#[trigger] text[i]) by {
        let b = bytes[i / 2] as int;
        assert(0 <= b / 16 < 16 && 0 <= b % 16 < 16);
    }
    assert forall|i: int| 0 <= i < bytes.len() implies #[trigger] hex_decoded(text)[i]
        == bytes[i] by {
        let b = bytes[i] as int;
        assert((2 * i) / 2 == i && (2 * i + 1) / 2 == i);
        assert((2 * i) % 2 == 0 && (2 * i + 1) % 2 == 1);
        assert(0 <= b / 16 < 16 && 0 <= b % 16 < 16);
        assert(hex_digit_value(hex_digit(b / 16)) == b / 16);
        assert(hex_digit_value(hex_digit(b % 16)) == b % 16);
        assert(16 * (b / 16) + b % 16 == b);
    }
    assert(hex_decoded(text) =~= bytes);
}

/// `text` is one or more decimal digits.
pub open spec fn is_decimal(text: Seq<u8>) -> bool {
    &&& text.len() > 0
    &&& forall|i: int| 0 <= i < text.len() ==> 0x30 <= #[trigger] text[i] <= 0x39
}

/// The number that decimal digits stand for, the first digit weighing
/// most.
pub open spec fn decimal_value(text: Seq<u8>) -> nat
    decreases text.len(),
{
    if text.len() == 0 {
        0
    } else {
        decimal_value(text.drop_last()) * 10 + (text.last() - 0x30) as nat
    }
}

/// The number that `text` stands for, if `text` is decimal digits and
/// the number fits.
pub open spec fn decimal(text: Seq<u8>) -> Option<usize> {
    if is_decimal(text) && decimal_value(text) <= usize::MAX {
        Some(decimal_value(text) as usize)
    } else {
        None
    }
}

proof fn lemma_decimal_prefix(text: Seq<u8>, i: int)
    requires
        forall|j: int| 0 <= j < text.len() ==> 0x30 <= #[trigger] text[j] <= 0x39,
        0 <= i <= text.len(),
    ensures
        decimal_value(text.subrange(0, i)) <= decimal_value(text),
    decreases text.len(),
{
    if i == text.len() {
        assert(text.subrange(0, i) =~= text);
    } else {
        assert(text.subrange(0, i) =~= text.drop_last().subrange(0, i));
        lemma_decimal_prefix(text.drop_last(), i);
    }
}

/// Reads a number written in decimal digits. `None` when `text` is empty,
/// holds anything but digits (a sign, a space), or stands for a number
/// that does not fit.
pub fn parse_decimal(text: &[u8]) -> (out: Option<usize>)
    ensures
        out == decimal(text@),
{
    if text.len() == 0 {
        return None;
    }
    let mut value: usize = 0;
    let mut i: usize = 0;
    while i < text.len()
        invariant
            i <= text@.len(),
            forall|j: int| 0 <= j < i ==> 0x30 <= #[trigger] text@[j] <= 0x39,
            value == decimal_value(text@.subrange(0, i as int)),
        decreases text@.len() - i,
    {
        let c = text[i];
        if c < 0x30 || c > 0x39 {
            return None;
        }
        let digit: usize = (c - 0x30) as usize;
        let ghost longer = text@.subrange(0, i + 1);
        proof {
            assert(longer.drop_last() =~= text@.subrange(0, i as int));
            assert(longer.last() == c);
            if is_decimal(text@) {
                lemma_decimal_prefix(text@, i + 1);
            }
        }
        let scaled = match value.checked_mul(10) {
            Some(scaled) => scaled,
            None => {
                return None;
            },
        };
        value = match scaled.checked_add(digit) {
            Some(sum) => sum,
            None => {
                return None;
            },
        };
        i += 1;
    }
    assert(text@.subrange(0, i as int) =~= text@);
    Some(value)
}

} // verus!
