//! The wire forms of unsigned integers.
//!
//! An integer travels either as a native number or as a string of decimal
//! digits. Numbers from two to the 53rd on cannot be told apart by readers that
//! hold numbers as double-precision floats, so they are sent as strings.
//! Reading accepts both forms, and a string inside one more layer of quotes.
use crate::error::{DecodeError, Error};
use crate::utilities::decimal::{
    decimal_text, format_u64, is_digit, lemma_decimal_text, parse_bounded, parse_range, parsed,
};
use vstd::prelude::*;
use vstd::string::*;

verus! {

/// The first number that is sent as a string: two to the power 53.
pub const SAFE_INTEGER_LIMIT: u64 = 9007199254740992;

/// A value as it stands on the wire, as far as an integer codec tells values
/// apart.
#[derive(Debug, Clone, PartialEq, Eq)]
pub enum WireValue {
    /// A native number that is a non-negative integer below two to the 64th.
    Number(u64),
    /// A string.
    Text(String),
    /// Anything else: a negative or fractional number, a boolean, a list.
    Other,
}

/// The mathematical model of a [`WireValue`].
pub enum WireForm {
    Number(u64),
    Text(Seq<char>),
    Other,
}

impl View for WireValue {
    type V = WireForm;

    open spec fn view(&self) -> WireForm {
        match self {
            WireValue::Number(n) => WireForm::Number(*n),
            WireValue::Text(text) => WireForm::Text(text@),
            WireValue::Other => WireForm::Other,
        }
    }
}

/// Whether `text` begins and ends with a quote character of its own.
pub open spec fn is_quoted(text: Seq<char>) -> bool {
    text.len() >= 2 && text.first() == '"' && text.last() == '"'
}

/// `text` without its first and its last character.
pub open spec fn unquoted(text: Seq<char>) -> Seq<char> {
    text.subrange(1, text.len() - 1)
}

/// What a string on the wire decodes to, for integers no larger than `max`:
/// the number it spells, or else the number it spells inside one layer of
/// quotes.
pub open spec fn decoded_text(text: Seq<char>, max: nat) -> Result<nat, Error> {
    if let Ok(n) = parsed(text, max) {
        Ok(n)
    } else if is_quoted(text) && parsed(unquoted(text), max) is Ok {
        Ok(parsed(unquoted(text), max)->Ok_0)
    } else {
        Err(Error::Decode(DecodeError::InvalidText))
    }
}

/// What a wire value decodes to, for integers no larger than `max`.
pub open spec fn decoded(wire: WireForm, max: nat) -> Result<nat, Error> {
    match wire {
        WireForm::Number(n) => if n <= max {
            Ok(n as nat)
        } else {
            Err(Error::Decode(DecodeError::OutOfRange))
        },
        WireForm::Text(text) => decoded_text(text, max),
        WireForm::Other => Err(Error::Decode(DecodeError::WrongShape)),
    }
}

/// What a wire value decodes to as a `u64`.
pub open spec fn decoded_u64(wire: WireForm) -> Result<u64, Error> {
    match decoded(wire, u64::MAX as nat) {
        Ok(n) => Ok(n as u64),
        Err(e) => Err(e),
    }
}

/// What a wire value decodes to as a `u32`.
pub open spec fn decoded_u32(wire: WireForm) -> Result<u32, Error> {
    match decoded(wire, u32::MAX as nat) {
        Ok(n) => Ok(n as u32),
        Err(e) => Err(e),
    }
}

/// The wire form of a `u64`: a number below [`SAFE_INTEGER_LIMIT`], its
/// decimal text from there on.
pub open spec fn encoded_u64(value: u64) -> WireForm {
    if value >= SAFE_INTEGER_LIMIT {
        WireForm::Text(decimal_text(value as nat))
    } else {
        WireForm::Number(value)
    }
}

/// The wire form of a `u32`: always a number.
pub open spec fn encoded_u32(value: u32) -> WireForm {
    WireForm::Number(value as u64)
}

/// Decodes a string from the wire as an integer no larger than `max`.
fn decode_text(text: &str, max: u64) -> (r: Result<u64, Error>)
    requires
        max >= 9,
    ensures
        match decoded_text(text@, max as nat) {
            Ok(n) => r == Ok::<u64, Error>(n as u64),
            Err(e) => r == Err::<u64, Error>(e),
        },
{
    broadcast use {is_ascii_spec_bytes, vstd::slice::axiom_spec_len};

    if let Ok(n) = parse_bounded(text, max) {
        return Ok(n);
    }
    if !text.is_ascii() {
        proof {
            if is_quoted(text@) && parsed(unquoted(text@), max as nat) is Ok {
                assert forall|i: int| 0 <= i < text@.len() implies '\0' <= #[trigger] text@[i]
                    <= '\u{7f}' by {
                    if 0 < i < text@.len() - 1 {
                        assert(is_digit(unquoted(text@)[i - 1]));
                    }
                }
            }
        }
        return Err(Error::Decode(DecodeError::InvalidText));
    }
    let bytes = text.as_bytes();
    let len = bytes.len();
    assert(len == text@.len());
    if len >= 2 && bytes[0] == 34 && bytes[len - 1] == 34 {
        match parse_range(text, 1, len - 1, max) {
            Ok(n) => Ok(n),
            Err(_) => Err(Error::Decode(DecodeError::InvalidText)),
        }
    } else {
        Err(Error::Decode(DecodeError::InvalidText))
    }
}

/// Decodes a string from the wire as a `u64`.
pub fn decode_text_u64(text: &str) -> (r: Result<u64, Error>)
    ensures
        r == decoded_u64(WireForm::Text(text@)),
{
    decode_text(text, u64::MAX)
}

/// Decodes a string from the wire as a `u32`.
pub fn decode_text_u32(text: &str) -> (r: Result<u32, Error>)
    ensures
        r == decoded_u32(WireForm::Text(text@)),
{
    match decode_text(text, 0xffff_ffff) {
        Ok(n) => Ok(n as u32),
        Err(e) => Err(e),
    }
}

/// Decodes a wire value as a `u64`: a number as it is, a string by the digits
/// it holds.
pub fn deserialize_u64(wire: &WireValue) -> (r: Result<u64, Error>)
    ensures
        r == decoded_u64(wire@),
{
    match wire {
        WireValue::Number(n) => Ok(*n),
        WireValue::Text(text) => decode_text_u64(text.as_str()),
        WireValue::Other => Err(Error::Decode(DecodeError::WrongShape)),
    }
}

/// Decodes a wire value as a `u32`: a number if it fits, a string by the
/// digits it holds.
pub fn deserialize_u32(wire: &WireValue) -> (r: Result<u32, Error>)
    ensures
        r == decoded_u32(wire@),
{
    match wire {
        WireValue::Number(n) => if *n <= 0xffff_ffff {
            Ok(*n as u32)
        } else {
            Err(Error::Decode(DecodeError::OutOfRange))
        },
        WireValue::Text(text) => decode_text_u32(text.as_str()),
        WireValue::Other => Err(Error::Decode(DecodeError::WrongShape)),
    }
}

/// Encodes a `u64` for the wire.
pub fn serialize_u64(i: &u64) -> (r: WireValue)
    ensures
        r@ == encoded_u64(*i),
{
    if *i >= SAFE_INTEGER_LIMIT {
        WireValue::Text(format_u64(*i))
    } else {
        WireValue::Number(*i)
    }
}

/// Encodes a `u32` for the wire. It is always below [`SAFE_INTEGER_LIMIT`].
pub fn serialize_u32(i: &u32) -> (r: WireValue)
    ensures
        r@ == encoded_u32(*i),
{
    WireValue::Number(*i as u64)
}

/// Decoding what was encoded gives the number back, for every `u64`: below
/// [`SAFE_INTEGER_LIMIT`], where it travels as a number, and from there on,
/// where it travels as text.
pub proof fn law_round_trip_u64(value: u64)
    ensures
        decoded_u64(encoded_u64(value)) == Ok::<u64, Error>(value),
        value < SAFE_INTEGER_LIMIT ==> encoded_u64(value) is Number,
        value >= SAFE_INTEGER_LIMIT ==> encoded_u64(value) is Text,
{
    lemma_decimal_text(value as nat);
}

/// Decoding what was encoded gives the number back, for every `u32`.
pub proof fn law_round_trip_u32(value: u32)
    ensures
        decoded_u32(encoded_u32(value)) == Ok::<u32, Error>(value),
{
}

} // verus!
