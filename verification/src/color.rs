//! Colors as Discord holds them: 24 bits of red, green and blue.
use crate::utilities::decimal::zero_padded;
use vstd::prelude::*;
use vstd::string::*;

verus! {

/// An alias for all the brits out there.
pub type Colour = Color;

/// A Discord color: the number `0xRRGGBB`, which holds what a tuple
/// `(u8, u8, u8)` of red, green and blue holds. The uppermost byte of the
/// number is not part of the color and should be zero.
///
/// An alias exists, [`Colour`].
#[derive(Debug, Hash, PartialEq, Structural, Clone, Copy, PartialOrd)]
pub struct Color(pub u32);

#[allow(non_snake_case)]
impl Color {
    /// A default color `TEAL` that represents the color value of `0x1abc9c`.
    pub fn TEAL() -> (r: Color)
        ensures
            r.0 == 0x1abc9c,
    {
        Color(0x1abc9c)
    }

    /// A default color `DARK_TEAL` that represents the color value of `0x11806a`.
    pub fn DARK_TEAL() -> (r: Color)
        ensures
            r.0 == 0x11806a,
    {
        Color(0x11806a)
    }

    /// A default color `GREEN` that represents the color value of `0x2ecc71`.
    pub fn GREEN() -> (r: Color)
        ensures
            r.0 == 0x2ecc71,
    {
        Color(0x2ecc71)
    }

    /// A default color `DARK_GREEN` that represents the color value of `0x1f8b4c`.
    pub fn DARK_GREEN() -> (r: Color)
        ensures
            r.0 == 0x1f8b4c,
    {
        Color(0x1f8b4c)
    }

    /// A default color `BLUE` that represents the color value of `0x3498db`.
    pub fn BLUE() -> (r: Color)
        ensures
            r.0 == 0x3498db,
    {
        Color(0x3498db)
    }

    /// A default color `DARK_BLUE` that represents the color value of `0x206694`.
    pub fn DARK_BLUE() -> (r: Color)
        ensures
            r.0 == 0x206694,
    {
        Color(0x206694)
    }

    /// A default color `PURPLE` that represents the color value of `0x9b59b6`.
    pub fn PURPLE() -> (r: Color)
        ensures
            r.0 == 0x9b59b6,
    {
        Color(0x9b59b6)
    }

    /// A default color `DARK_PURPLE` that represents the color value of `0x71368a`.
    pub fn DARK_PURPLE() -> (r: Color)
        ensures
            r.0 == 0x71368a,
    {
        Color(0x71368a)
    }

    /// A default color `MAGENTA` that represents the color value of `0xe91e63`.
    pub fn MAGENTA() -> (r: Color)
        ensures
            r.0 == 0xe91e63,
    {
        Color(0xe91e63)
    }

    /// A default color `DARK_MAGENTA` that represents the color value of `0xad1457`.
    pub fn DARK_MAGENTA() -> (r: Color)
        ensures
            r.0 == 0xad1457,
    {
        Color(0xad1457)
    }

    /// A default color `GOLD` that represents the color value of `0xf1c40f`.
    pub fn GOLD() -> (r: Color)
        ensures
            r.0 == 0xf1c40f,
    {
        Color(0xf1c40f)
    }

    /// A default color `DARK_GOLD` that represents the color value of `0xc27c0e`.
    pub fn DARK_GOLD() -> (r: Color)
        ensures
            r.0 == 0xc27c0e,
    {
        Color(0xc27c0e)
    }

    /// A default color `ORANGE` that represents the color value of `0xe67e22`.
    pub fn ORANGE() -> (r: Color)
        ensures
            r.0 == 0xe67e22,
    {
        Color(0xe67e22)
    }

    /// A default color `DARK_ORANGE` that represents the color value of `0xa84300`.
    pub fn DARK_ORANGE() -> (r: Color)
        ensures
            r.0 == 0xa84300,
    {
        Color(0xa84300)
    }

    /// A default color `RED` that represents the color value of `0xe74c3c`.
    pub fn RED() -> (r: Color)
        ensures
            r.0 == 0xe74c3c,
    {
        Color(0xe74c3c)
    }

    /// A default color `DARK_RED` that represents the color value of `0x992d22`.
    pub fn DARK_RED() -> (r: Color)
        ensures
            r.0 == 0x992d22,
    {
        Color(0x992d22)
    }

    /// A default color `LIGHTER_GREY` that represents the color value of `0x95a5a6`.
    pub fn LIGHTER_GREY() -> (r: Color)
        ensures
            r.0 == 0x95a5a6,
    {
        Color(0x95a5a6)
    }

    /// An alias to the color `LIGHTER_GREY`.
    pub fn LIGHTER_GRAY() -> (r: Color)
        ensures
            r.0 == 0x95a5a6,
    {
        Color::LIGHTER_GREY()
    }

    /// A default color `DARK_GREY` that represents the color value of `0x607d8b`.
    pub fn DARK_GREY() -> (r: Color)
        ensures
            r.0 == 0x607d8b,
    {
        Color(0x607d8b)
    }

    /// An alias to the color `DARK_GREY`.
    pub fn DARK_GRAY() -> (r: Color)
        ensures
            r.0 == 0x607d8b,
    {
        Color::DARK_GREY()
    }

    /// A default color `LIGHT_GREY` that represents the color value of `0x979c9f`.
    pub fn LIGHT_GREY() -> (r: Color)
        ensures
            r.0 == 0x979c9f,
    {
        Color(0x979c9f)
    }

    /// An alias to the color `LIGHT_GREY`.
    pub fn LIGHT_GRAY() -> (r: Color)
        ensures
            r.0 == 0x979c9f,
    {
        Color::LIGHT_GREY()
    }

    /// A default color `DARKER_GREY` that represents the color value of `0x546e7a`.
    pub fn DARKER_GREY() -> (r: Color)
        ensures
            r.0 == 0x546e7a,
    {
        Color(0x546e7a)
    }

    /// An alias to the color `DARKER_GREY`.
    pub fn DARKER_GRAY() -> (r: Color)
        ensures
            r.0 == 0x546e7a,
    {
        Color::DARKER_GREY()
    }

    /// A default color `BLURPLE` that represents the color value of `0x7289da`.
    /// The Discord mix of blue and purple.
    pub fn BLURPLE() -> (r: Color)
        ensures
            r.0 == 0x7289da,
    {
        Color(0x7289da)
    }

    /// A default color `GREYPLE` that represents the color value of `0x99aab5`.
    pub fn GREYPLE() -> (r: Color)
        ensures
            r.0 == 0x99aab5,
    {
        Color(0x99aab5)
    }

    /// A default color `DARK_THEME` that represents the color value of `0x36393f`.
    /// In embeds, this makes the side appear invisible, when in dark mode.
    pub fn DARK_THEME() -> (r: Color)
        ensures
            r.0 == 0x36393f,
    {
        Color(0x36393f)
    }

}

impl Color {
    /// The red part of the color: the second byte from the top.
    pub open spec fn red(self) -> u8 {
        ((self.0 >> 16) & 0xff) as u8
    }

    /// The green part of the color: the third byte from the top.
    pub open spec fn green(self) -> u8 {
        ((self.0 >> 8) & 0xff) as u8
    }

    /// The blue part of the color: the lowest byte.
    pub open spec fn blue(self) -> u8 {
        (self.0 & 0xff) as u8
    }

    /// The number `0xRRGGBB` of three parts.
    pub open spec fn packed(r: u8, g: u8, b: u8) -> u32 {
        ((r as u32) << 16) | ((g as u32) << 8) | (b as u32)
    }

    /// Creates a new color of the value passed.
    pub fn new(color: u32) -> (r: Self)
        ensures
            r.0 == color,
    {
        Self(color)
    }

    /// The four bytes of the number, the uppermost first: one byte that is
    /// hopefully zero, then red, green and blue.
    pub fn rgb_(&self) -> (r: [u8; 4])
        ensures
            r[0] == ((self.0 >> 24) & 0xff) as u8,
            r[1] == self.red(),
            r[2] == self.green(),
            r[3] == self.blue(),
    {
        let value = self.0;
        assert(((value >> 24) & 0xff) <= 0xff && ((value >> 16) & 0xff) <= 0xff && ((value >> 8)
            & 0xff) <= 0xff && (value & 0xff) <= 0xff) by (bit_vector);
        [
            ((value >> 24) & 0xff) as u8,
            ((value >> 16) & 0xff) as u8,
            ((value >> 8) & 0xff) as u8,
            (value & 0xff) as u8,
        ]
    }

    /// Gives the `red` value of the RGB code.
    pub fn r(&self) -> (r: u8)
        ensures
            r == self.red(),
    {
        self.rgb_()[1]
    }

    /// Gives the `green` value of the RGB code.
    pub fn g(&self) -> (r: u8)
        ensures
            r == self.green(),
    {
        self.rgb_()[2]
    }

    /// Gives the `blue` value of the RGB code.
    pub fn b(&self) -> (r: u8)
        ensures
            r == self.blue(),
    {
        self.rgb_()[3]
    }

    /// Gives the `rgb` value as a tuple.
    pub fn rgb(&self) -> (r: (u8, u8, u8))
        ensures
            r == (self.red(), self.green(), self.blue()),
    {
        (self.r(), self.g(), self.b())
    }

    /// Converts a RGB code into a color.
    pub fn from_rgb(r: u8, g: u8, b: u8) -> (color: Self)
        ensures
            color.0 == Self::packed(r, g, b),
            color.red() == r,
            color.green() == g,
            color.blue() == b,
    {
        proof {
            Self::lemma_packed(r, g, b);
        }
        Self(((r as u32) << 16) | ((g as u32) << 8) | (b as u32))
    }

    /// Converts a RGB code tuple into a color.
    pub fn from_rgb_tuple(tup: (u8, u8, u8)) -> (color: Self)
        ensures
            color.0 == Self::packed(tup.0, tup.1, tup.2),
            color.red() == tup.0,
            color.green() == tup.1,
            color.blue() == tup.2,
    {
        Self::from_rgb(tup.0, tup.1, tup.2)
    }

    /// The color as a hex code: `#`, then the number in lower-case hex digits,
    /// with zeros in front up to six digits.
    pub fn to_string(&self) -> (r: String)
        ensures
            r@ == seq!['#'] + zero_padded(hex_text(self.0 as nat), 6),
    {
        proof {
            reveal_strlit("#");
        }
        let len = hex_len(self.0);
        let mut out = String::new();
        out.append("#");
        let mut filled: usize = len;
        while filled < 6
            invariant
                len == hex_text(self.0 as nat).len(),
                len <= filled,
                filled <= 6 || filled == len,
                out@ == seq!['#'] + Seq::new((filled - len) as nat, |i: int| '0'),
            decreases 6 - filled,
        {
            proof {
                reveal_strlit("0");
            }
            out.append("0");
            filled = filled + 1;
        }
        push_hex(&mut out, self.0);
        proof {
            let text = hex_text(self.0 as nat);
            if text.len() < 6 {
                assert(out@ =~= seq!['#'] + (Seq::new((6 - text.len()) as nat, |i: int| '0')
                    + text));
            }
        }
        out
    }

    /// The number of three parts gives the parts back, and has a zero
    /// uppermost byte.
    pub proof fn lemma_packed(r: u8, g: u8, b: u8)
        ensures
            Color(Self::packed(r, g, b)).red() == r,
            Color(Self::packed(r, g, b)).green() == g,
            Color(Self::packed(r, g, b)).blue() == b,
            Self::packed(r, g, b) <= 0xff_ffff,
    {
        let value = Self::packed(r, g, b);
        assert(((value >> 16) & 0xff) == r as u32 && ((value >> 8) & 0xff) == g as u32 && (value
            & 0xff) == b as u32 && value <= 0xff_ffff) by (bit_vector)
            requires
                value == ((r as u32) << 16) | ((g as u32) << 8) | (b as u32),
        ;
    }
}

impl Default for Color {
    /// Gives the default color, with value `0`: black.
    fn default() -> (r: Self)
        ensures
            r.0 == 0,
    {
        Self(0)
    }
}

/// The lower-case hex digit that stands for `d`, a number below sixteen.
pub open spec fn hex_char(d: nat) -> char {
    if d < 10 {
        ((48 + d) as u8) as char
    } else {
        ((87 + d) as u8) as char
    }
}

/// The hex text of `n`: its lower-case hex digits without a leading zero, `0`
/// for zero.
pub open spec fn hex_text(n: nat) -> Seq<char>
    decreases n,
{
    if n < 16 {
        seq![hex_char(n)]
    } else {
        hex_text(n / 16).push(hex_char(n % 16))
    }
}

/// Sixteen to the power `exponent`.
pub open spec fn pow16(exponent: nat) -> nat
    decreases exponent,
{
    if exponent == 0 {
        1
    } else {
        16 * pow16((exponent - 1) as nat)
    }
}

/// A number below sixteen to the `width` has at most `width` hex digits.
pub proof fn lemma_hex_len(n: nat, width: nat)
    requires
        width >= 1,
        n < pow16(width),
    ensures
        1 <= hex_text(n).len() <= width,
    decreases width,
{
    if n >= 16 {
        if width == 1 {
            assert(pow16(1) == 16) by {
                reveal_with_fuel(pow16, 2);
            }
        } else {
            lemma_hex_len(n / 16, (width - 1) as nat);
        }
    }
}

/// The one-character text of the hex digit that stands for `d`.
fn hex_digit_text(d: u8) -> (r: &'static str)
    requires
        d < 16,
    ensures
        r@ == seq![hex_char(d as nat)],
{
    proof {
        reveal_strlit("0");
        reveal_strlit("1");
        reveal_strlit("2");
        reveal_strlit("3");
        reveal_strlit("4");
        reveal_strlit("5");
        reveal_strlit("6");
        reveal_strlit("7");
        reveal_strlit("8");
        reveal_strlit("9");
        reveal_strlit("a");
        reveal_strlit("b");
        reveal_strlit("c");
        reveal_strlit("d");
        reveal_strlit("e");
        reveal_strlit("f");
    }
    match d {
        0 => "0",
        1 => "1",
        2 => "2",
        3 => "3",
        4 => "4",
        5 => "5",
        6 => "6",
        7 => "7",
        8 => "8",
        9 => "9",
        10 => "a",
        11 => "b",
        12 => "c",
        13 => "d",
        14 => "e",
        _ => "f",
    }
}

/// Appends the hex text of `value` to `out`.
fn push_hex(out: &mut String, value: u32)
    ensures
        final(out)@ == old(out)@ + hex_text(value as nat),
    decreases value,
{
    if value >= 16 {
        push_hex(out, value / 16);
    }
    let digit = (value % 16) as u8;
    out.append(hex_digit_text(digit));
}

/// The number of hex digits of `value`.
fn hex_len(value: u32) -> (r: usize)
    ensures
        r == hex_text(value as nat).len(),
        1 <= r <= 8,
    decreases value,
{
    proof {
        assert(pow16(8) == 0x1_0000_0000) by {
            reveal_with_fuel(pow16, 9);
        }
        lemma_hex_len(value as nat, 8);
    }
    if value < 16 {
        1
    } else {
        1 + hex_len(value / 16)
    }
}

} // verus!
