//! Unsigned integers as decimal text.
//!
//! The text of a number is its digits, most significant first, with no sign
//! and, but for zero itself, no leading zero. Reading accepts leading zeros.
use crate::error::ParseIntError;
use vstd::prelude::*;
use vstd::string::*;

verus! {

/// Whether `c` is one of `0` to `9`.
pub open spec fn is_digit(c: char) -> bool {
    '0' <= c <= '9'
}

/// The number that the digit `c` stands for; zero for any other character.
pub open spec fn digit_value(c: char) -> nat {
    if is_digit(c) {
        (c as u8 - 48) as nat
    } else {
        0
    }
}

/// The digit that stands for `d`, a number below ten.
pub open spec fn digit_char(d: nat) -> char {
    ((48 + d) as u8) as char
}

/// Whether `text` is made of digits only.
pub open spec fn all_digits(text: Seq<char>) -> bool {
    forall|i: int| 0 <= i < text.len() ==> is_digit(#[trigger] text[i])
}

/// The number that a text of digits stands for in base ten; the empty text
/// stands for zero.
pub open spec fn decimal_value(text: Seq<char>) -> nat
    decreases text.len(),
{
    if text.len() == 0 {
        0
    } else {
        10 * decimal_value(text.drop_last()) + digit_value(text.last())
    }
}

/// The decimal text of `n`: its digits without a leading zero, `0` for zero.
pub open spec fn decimal_text(n: nat) -> Seq<char>
    decreases n,
{
    if n < 10 {
        seq![digit_char(n)]
    } else {
        decimal_text(n / 10).push(digit_char(n % 10))
    }
}

/// `text` with zeros in front, as many as it takes to reach `width`
/// characters; `text` itself where it is that long already.
pub open spec fn zero_padded(text: Seq<char>, width: nat) -> Seq<char> {
    if text.len() >= width {
        text
    } else {
        Seq::new((width - text.len()) as nat, |i: int| '0') + text
    }
}

/// What reading `text` as an unsigned integer no larger than `max` gives.
pub open spec fn parsed(text: Seq<char>, max: nat) -> Result<nat, ParseIntError> {
    if text.len() == 0 {
        Err(ParseIntError::Empty)
    } else if !all_digits(text) {
        Err(ParseIntError::InvalidDigit)
    } else if decimal_value(text) > max {
        Err(ParseIntError::PosOverflow)
    } else {
        Ok(decimal_value(text))
    }
}

/// What reading `text` as a `u64` gives.
pub open spec fn parsed_u64(text: Seq<char>) -> Result<u64, ParseIntError> {
    match parsed(text, u64::MAX as nat) {
        Ok(n) => Ok(n as u64),
        Err(e) => Err(e),
    }
}

/// What reading `text` as a `u32` gives.
pub open spec fn parsed_u32(text: Seq<char>) -> Result<u32, ParseIntError> {
    match parsed(text, u32::MAX as nat) {
        Ok(n) => Ok(n as u32),
        Err(e) => Err(e),
    }
}

/// A digit and its number determine each other.
pub proof fn lemma_digit_char(d: nat)
    requires
        d < 10,
    ensures
        is_digit(digit_char(d)),
        digit_value(digit_char(d)) == d,
{
}

/// The decimal text of a number is not empty, is made of digits, and stands
/// for that number.
pub proof fn lemma_decimal_text(n: nat)
    ensures
        decimal_text(n).len() >= 1,
        all_digits(decimal_text(n)),
        decimal_value(decimal_text(n)) == n,
    decreases n,
{
    if n < 10 {
        lemma_digit_char(n);
        assert(decimal_value(decimal_text(n).drop_last()) == 0);
    } else {
        lemma_decimal_text(n / 10);
        lemma_digit_char(n % 10);
        assert(decimal_text(n).drop_last() =~= decimal_text(n / 10));
    }
}

/// A prefix of a text stands for no larger a number than the text.
pub proof fn lemma_prefix_value(text: Seq<char>, len: int)
    requires
        0 <= len <= text.len(),
    ensures
        decimal_value(text.take(len)) <= decimal_value(text),
    decreases text.len(),
{
    if len == text.len() {
        assert(text.take(len) =~= text);
    } else {
        assert(text.drop_last().take(len) =~= text.take(len));
        lemma_prefix_value(text.drop_last(), len);
    }
}

/// One more character at the end of a text: ten times the number, plus the
/// digit.
pub proof fn lemma_value_step(text: Seq<char>, len: int)
    requires
        0 <= len < text.len(),
    ensures
        decimal_value(text.take(len + 1)) == 10 * decimal_value(text.take(len)) + digit_value(
            text[len],
        ),
{
    assert(text.take(len + 1).drop_last() =~= text.take(len));
}

/// Zeros in front of a text do not change the number it stands for.
pub proof fn lemma_zero_padded(text: Seq<char>, width: nat)
    ensures
        decimal_value(zero_padded(text, width)) == decimal_value(text),
        all_digits(text) ==> all_digits(zero_padded(text, width)),
        zero_padded(text, width).len() == if text.len() >= width {
            text.len()
        } else {
            width
        },
    decreases text.len(), width,
{
    if text.len() < width {
        let padded = zero_padded(text, width);
        if text.len() == 0 {
            lemma_zero_padded(text, (width - 1) as nat);
            assert(padded.drop_last() =~= zero_padded(text, (width - 1) as nat));
        } else {
            lemma_zero_padded(text.drop_last(), (width - 1) as nat);
            assert(padded.drop_last() =~= zero_padded(text.drop_last(), (width - 1) as nat));
        }
    }
}

/// Reading the decimal text of a `u64` gives the number back, with zeros in
/// front of the text as without.
pub proof fn law_text_round_trip(value: u64, width: nat)
    ensures
        parsed_u64(decimal_text(value as nat)) == Ok::<u64, ParseIntError>(value),
        parsed_u64(zero_padded(decimal_text(value as nat), width)) == Ok::<u64, ParseIntError>(
            value,
        ),
{
    lemma_decimal_text(value as nat);
    lemma_zero_padded(decimal_text(value as nat), width);
}

/// Ten to the power `exponent`.
pub open spec fn pow10(exponent: nat) -> nat
    decreases exponent,
{
    if exponent == 0 {
        1
    } else {
        10 * pow10((exponent - 1) as nat)
    }
}

/// A number below ten to the `width` has at most `width` digits.
pub proof fn lemma_text_len(n: nat, width: nat)
    requires
        width >= 1,
        n < pow10(width),
    ensures
        decimal_text(n).len() <= width,
    decreases width,
{
    if n >= 10 {
        if width == 1 {
            assert(pow10(1) == 10) by {
                reveal_with_fuel(pow10, 2);
            }
        } else {
            lemma_text_len(n / 10, (width - 1) as nat);
        }
    }
}

/// A `u64` has at most twenty digits.
pub proof fn lemma_text_len_u64(value: u64)
    ensures
        1 <= decimal_text(value as nat).len() <= 20,
{
    assert(pow10(20) == 100_000_000_000_000_000_000nat) by {
        reveal_with_fuel(pow10, 21);
    }
    lemma_text_len(value as nat, 20);
    lemma_decimal_text(value as nat);
}

/// The one-character text of the digit that stands for `d`.
fn digit_text(d: u8) -> (r: &'static str)
    requires
        d < 10,
    ensures
        r@ == seq![digit_char(d as nat)],
{
    proof {
        reveal_strlit("0");
        reveal_strlit("1");
        reveal_strlit("2");
        reveal_strlit("3");
        reveal_strlit("4");
        reveal_strlit("5");
        reveal_strlit("6");
        reveal_strlit("7");
        reveal_strlit("8");
        reveal_strlit("9");
    }
    match d {
        0 => "0",
        1 => "1",
        2 => "2",
        3 => "3",
        4 => "4",
        5 => "5",
        6 => "6",
        7 => "7",
        8 => "8",
        _ => "9",
    }
}

/// Appends the decimal text of `value` to `out`.
pub fn push_decimal(out: &mut String, value: u64)
    ensures
        final(out)@ == old(out)@ + decimal_text(value as nat),
    decreases value,
{
    if value >= 10 {
        push_decimal(out, value / 10);
    }
    let digit = (value % 10) as u8;
    out.append(digit_text(digit));
    proof {
        if value >= 10 {
            assert(out@ =~= old(out)@ + decimal_text(value as nat / 10).push(
                digit_char(value as nat % 10),
            ));
        }
    }
}

/// The decimal text of `value`.
pub fn format_u64(value: u64) -> (r: String)
    ensures
        r@ == decimal_text(value as nat),
{
    let mut out = String::new();
    push_decimal(&mut out, value);
    out
}

/// The number of digits of `value`.
pub fn decimal_len(value: u64) -> (r: usize)
    ensures
        r == decimal_text(value as nat).len(),
        1 <= r <= 20,
    decreases value,
{
    proof {
        lemma_text_len_u64(value);
    }
    if value < 10 {
        1
    } else {
        1 + decimal_len(value / 10)
    }
}

/// The decimal text of `value` with zeros in front, up to `width` characters.
pub fn format_u64_padded(value: u64, width: usize) -> (r: String)
    ensures
        r@ == zero_padded(decimal_text(value as nat), width as nat),
{
    let len = decimal_len(value);
    let mut out = String::new();
    let mut filled: usize = len;
    while filled < width
        invariant
            len == decimal_text(value as nat).len(),
            len <= filled,
            filled <= width || filled == len,
            out@ == Seq::new((filled - len) as nat, |i: int| '0'),
        decreases width - filled,
    {
        proof {
            reveal_strlit("0");
        }
        out.append("0");
        filled = filled + 1;
    }
    push_decimal(&mut out, value);
    out
}

/// Reads the characters of `text` from `from` up to `to` as an unsigned
/// integer no larger than `max`.
pub(crate) fn parse_range(text: &str, from: usize, to: usize, max: u64) -> (r: Result<
    u64,
    ParseIntError,
>)
    requires
        text.is_ascii(),
        from <= to <= text@.len(),
        max >= 9,
    ensures
        match parsed(text@.subrange(from as int, to as int), max as nat) {
            Ok(n) => r == Ok::<u64, ParseIntError>(n as u64),
            Err(e) => r == Err::<u64, ParseIntError>(e),
        },
{
    broadcast use is_ascii_spec_bytes;

    let bytes = text.as_bytes();
    let ghost part = text@.subrange(from as int, to as int);
    if from == to {
        return Err(ParseIntError::Empty);
    }
    let mut i: usize = from;
    while i < to
        invariant
            text.is_ascii(),
            from <= i <= to <= text@.len(),
            bytes@ == text.spec_bytes(),
            part == text@.subrange(from as int, to as int),
            forall|j: int| 0 <= j < i - from ==> is_digit(#[trigger] part[j]),
        decreases to - i,
    {
        let b = bytes[i];
        if b < 48 || b > 57 {
            assert(!is_digit(part[i - from]));
            return Err(ParseIntError::InvalidDigit);
        }
        i = i + 1;
    }
    let mut value: u64 = 0;
    let mut i: usize = from;
    while i < to
        invariant
            text.is_ascii(),
            from <= i <= to <= text@.len(),
            bytes@ == text.spec_bytes(),
            part == text@.subrange(from as int, to as int),
            all_digits(part),
            value == decimal_value(part.take(i - from)),
            value <= max,
            max >= 9,
        decreases to - i,
    {
        assert(is_digit(part[i - from]));
        let digit = (bytes[i] - 48) as u64;
        proof {
            lemma_value_step(part, i - from);
            lemma_prefix_value(part, i - from + 1);
        }
        if value > (max - digit) / 10 {
            return Err(ParseIntError::PosOverflow);
        }
        value = value * 10 + digit;
        i = i + 1;
    }
    assert(part.take(to - from) =~= part);
    Ok(value)
}

/// Reads `text` as an unsigned integer no larger than `max`.
pub(crate) fn parse_bounded(text: &str, max: u64) -> (r: Result<u64, ParseIntError>)
    requires
        max >= 9,
    ensures
        match parsed(text@, max as nat) {
            Ok(n) => r == Ok::<u64, ParseIntError>(n as u64),
            Err(e) => r == Err::<u64, ParseIntError>(e),
        },
{
    broadcast use is_ascii_spec_bytes;

    if text.is_empty() {
        return Err(ParseIntError::Empty);
    }
    if !text.is_ascii() {
        return Err(ParseIntError::InvalidDigit);
    }
    let len = text.as_bytes().len();
    assert(len == text@.len()) by {
        broadcast use vstd::slice::axiom_spec_len;

    };
    assert(text@.subrange(0, len as int) =~= text@);
    parse_range(text, 0, len, max)
}

/// Reads `text` as a `u64`: a text of one digit or more, leading zeros
/// allowed, that stands for a number that fits in 64 bits.
pub fn parse_u64(text: &str) -> (r: Result<u64, ParseIntError>)
    ensures
        r == parsed_u64(text@),
{
    parse_bounded(text, u64::MAX)
}

/// Reads `text` as a `u32`: a text of one digit or more, leading zeros
/// allowed, that stands for a number that fits in 32 bits.
pub fn parse_u32(text: &str) -> (r: Result<u32, ParseIntError>)
    ensures
        r == parsed_u32(text@),
{
    match parse_bounded(text, 0xffff_ffff) {
        Ok(n) => Ok(n as u32),
        Err(e) => Err(e),
    }
}

} // verus!
