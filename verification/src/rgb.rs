//! The 24-bit RGB color space: the canonical hub every other space
//! converts through.

use vstd::prelude::*;
use vstd::string::StrSliceExecFns;
use vstd::string::StringExecFns;

use crate::cmyk::Cmyk;
use crate::utility::lemma_round_div_bounds;
use crate::utility::spec_round_div;

verus! {

/// An error which can be returned while parsing an RGB hex code.
///
/// This error is returned by `Rgb::from_hex_code` if the parse fails.
#[derive(Debug, Clone, Copy, PartialEq, Eq, Structural)]
pub struct RgbHexCodeParseError;

/// The encoded RGB color.
///
/// Each channel is an exact 8-bit integer, so every representable value
/// is in range by construction and no clamping is ever needed.
#[derive(Debug, Clone, Copy, PartialEq, Eq, Structural, Hash)]
pub struct Rgb {
    /// The red component.
    pub r: u8,
    /// The green component.
    pub g: u8,
    /// The blue component.
    pub b: u8,
}

/// The packed `0xRRGGBB` code of an RGB color.
pub open spec fn spec_rgb_hex(c: Rgb) -> int {
    0x10000 * c.r + 0x100 * c.g + c.b
}

/// The RGB color encoded by the low 24 bits of a packed `0xRRGGBB` word.
pub open spec fn spec_rgb_of_u32(hex: u32) -> Rgb {
    Rgb {
        r: ((hex as int / 0x10000) % 0x100) as u8,
        g: ((hex as int / 0x100) % 0x100) as u8,
        b: (hex as int % 0x100) as u8,
    }
}

/// True of the sixteen hexadecimal digit characters, upper or lower case.
pub open spec fn is_hex_digit(c: char) -> bool {
    ('0' as u32 <= c as u32 && c as u32 <= '9' as u32) || ('a' as u32 <= c as u32 && c as u32
        <= 'f' as u32) || ('A' as u32 <= c as u32 && c as u32 <= 'F' as u32)
}

/// The numeric value of a hexadecimal digit character (meaningful when
/// `is_hex_digit(c)` holds).
pub open spec fn hex_digit_value(c: char) -> int {
    if '0' as u32 <= c as u32 && c as u32 <= '9' as u32 {
        c as int - '0' as int
    } else if 'a' as u32 <= c as u32 && c as u32 <= 'f' as u32 {
        c as int - 'a' as int + 10
    } else {
        c as int - 'A' as int + 10
    }
}

/// The value of a two-digit hexadecimal pair.
pub open spec fn hex_pair_value(hi: char, lo: char) -> int {
    16 * hex_digit_value(hi) + hex_digit_value(lo)
}

/// A well-formed six-digit hex code: `#` followed by six hex digits.
pub open spec fn valid_hex_code_6(s: Seq<char>) -> bool {
    &&& s.len() == 7
    &&& s[0] == '#'
    &&& forall|i: int| 1 <= i < 7 ==> is_hex_digit(#[trigger] s[i])
}

/// A well-formed three-digit shorthand hex code: `#` followed by three
/// hex digits.
pub open spec fn valid_hex_code_3(s: Seq<char>) -> bool {
    &&& s.len() == 4
    &&& s[0] == '#'
    &&& forall|i: int| 1 <= i < 4 ==> is_hex_digit(#[trigger] s[i])
}

/// The color denoted by a well-formed six-digit hex code.
pub open spec fn spec_rgb_of_hex_code_6(s: Seq<char>) -> Rgb {
    Rgb {
        r: hex_pair_value(s[1], s[2]) as u8,
        g: hex_pair_value(s[3], s[4]) as u8,
        b: hex_pair_value(s[5], s[6]) as u8,
    }
}

/// The color denoted by a well-formed three-digit shorthand hex code:
/// each digit is expanded by duplicating its nibble, so a digit of value
/// `v` denotes the channel value `0x11 * v`.
pub open spec fn spec_rgb_of_hex_code_3(s: Seq<char>) -> Rgb {
    Rgb {
        r: (17 * hex_digit_value(s[1])) as u8,
        g: (17 * hex_digit_value(s[2])) as u8,
        b: (17 * hex_digit_value(s[3])) as u8,
    }
}

/// The numeric value of one hexadecimal digit character, or `None` when
/// the character is not a hex digit.
fn hex_digit(c: char) -> (r: Option<u8>)
    ensures
        match r {
            Some(v) => is_hex_digit(c) && v == hex_digit_value(c),
            None => !is_hex_digit(c),
        },
{
    let u = c as u32;
    if 48 <= u && u <= 57 {
        Some((u - 48) as u8)
    } else if 97 <= u && u <= 102 {
        Some((u - 97 + 10) as u8)
    } else if 65 <= u && u <= 70 {
        Some((u - 65 + 10) as u8)
    } else {
        None
    }
}

/// The value of a two-digit hexadecimal pair, or `None` when either
/// character is not a hex digit.
fn hex_pair(hi: char, lo: char) -> (r: Option<u8>)
    ensures
        match r {
            Some(v) => is_hex_digit(hi) && is_hex_digit(lo) && v == hex_pair_value(hi, lo),
            None => !(is_hex_digit(hi) && is_hex_digit(lo)),
        },
{
    match (hex_digit(hi), hex_digit(lo)) {
        (Some(h), Some(l)) => Some(16 * h + l),
        _ => None,
    }
}

/// The sixteen hexadecimal digit characters, in value order.
pub open spec fn spec_hex_digits() -> Seq<char> {
    seq!['0', '1', '2', '3', '4', '5', '6', '7', '8', '9', 'a', 'b', 'c', 'd', 'e', 'f']
}

/// The lower-case hexadecimal digit character for a value in `[0, 16)`.
pub open spec fn hex_digit_char(v: int) -> char {
    spec_hex_digits()[v]
}

/// The `#rrggbb` hex code of an RGB color, as a character sequence.
pub open spec fn spec_hex_code(c: Rgb) -> Seq<char> {
    seq![
        '#',
        hex_digit_char(c.r as int / 16),
        hex_digit_char(c.r as int % 16),
        hex_digit_char(c.g as int / 16),
        hex_digit_char(c.g as int % 16),
        hex_digit_char(c.b as int / 16),
        hex_digit_char(c.b as int % 16),
    ]
}

/// The one-character string holding the hex digit for a value in
/// `[0, 16)`.
fn hex_digit_str(v: u8) -> (r: &'static str)
    requires
        v < 16,
    ensures
        r@.len() == 1,
        r@[0] == hex_digit_char(v as int),
{
    let digits = "0123456789abcdef";
    proof {
        reveal_strlit("0123456789abcdef");
        assert(digits@ =~= spec_hex_digits());
        assert(vstd::string::is_ascii(digits));
    }
    digits.substring_ascii(v as usize, v as usize + 1)
}

impl Rgb {
    /// Constructs a new `Rgb` color.
    pub fn new(red: u8, green: u8, blue: u8) -> (c: Self)
        ensures
            c == (Rgb { r: red, g: green, b: blue }),
    {
        Rgb { r: red, g: green, b: blue }
    }

    /// Constructs a new `Rgb` color by parsing a hex code.
    ///
    /// Both three and six digit variations are acceptable: `#rrggbb`
    /// reads each channel from a digit pair, and `#rgb` expands each
    /// digit by duplicating its nibble. Any other string (missing `#`,
    /// wrong length, or a non-hex character) is a parse error.
    pub fn from_hex_code(hex: &str) -> (r: Result<Rgb, RgbHexCodeParseError>)
        ensures
            valid_hex_code_6(hex@) ==> r == Ok::<Rgb, RgbHexCodeParseError>(
                spec_rgb_of_hex_code_6(hex@),
            ),
            valid_hex_code_3(hex@) ==> r == Ok::<Rgb, RgbHexCodeParseError>(
                spec_rgb_of_hex_code_3(hex@),
            ),
            !valid_hex_code_6(hex@) && !valid_hex_code_3(hex@) ==> r == Err::<
                Rgb,
                RgbHexCodeParseError,
            >(RgbHexCodeParseError),
    {
        let n = hex.unicode_len();
        if n == 7 {
            if hex.get_char(0) != '#' {
                return Err(RgbHexCodeParseError);
            }
            let red = hex_pair(hex.get_char(1), hex.get_char(2));
            let green = hex_pair(hex.get_char(3), hex.get_char(4));
            let blue = hex_pair(hex.get_char(5), hex.get_char(6));
            match (red, green, blue) {
                (Some(r), Some(g), Some(b)) => Ok(Rgb { r, g, b }),
                _ => Err(RgbHexCodeParseError),
            }
        } else if n == 4 {
            if hex.get_char(0) != '#' {
                return Err(RgbHexCodeParseError);
            }
            let red = hex_digit(hex.get_char(1));
            let green = hex_digit(hex.get_char(2));
            let blue = hex_digit(hex.get_char(3));
            match (red, green, blue) {
                (Some(r), Some(g), Some(b)) => Ok(Rgb { r: 17 * r, g: 17 * g, b: 17 * b }),
                _ => Err(RgbHexCodeParseError),
            }
        } else {
            Err(RgbHexCodeParseError)
        }
    }

    /// Returns the red component.
    pub fn red(&self) -> (r: u8)
        ensures
            r == self.r,
    {
        self.r
    }

    /// Returns the green component.
    pub fn green(&self) -> (r: u8)
        ensures
            r == self.g,
    {
        self.g
    }

    /// Returns the blue component.
    pub fn blue(&self) -> (r: u8)
        ensures
            r == self.b,
    {
        self.b
    }

    /// Sets the red component.
    pub fn set_red(&mut self, value: u8)
        ensures
            *final(self) == (Rgb { r: value, ..*old(self) }),
    {
        self.r = value;
    }

    /// Sets the green component.
    pub fn set_green(&mut self, value: u8)
        ensures
            *final(self) == (Rgb { g: value, ..*old(self) }),
    {
        self.g = value;
    }

    /// Sets the blue component.
    pub fn set_blue(&mut self, value: u8)
        ensures
            *final(self) == (Rgb { b: value, ..*old(self) }),
    {
        self.b = value;
    }

    /// Returns an array containing the `[R, G, B]` component octets.
    pub fn octets(&self) -> (r: [u8; 3])
        ensures
            r@ == seq![self.r, self.g, self.b],
    {
        let r = [self.r, self.g, self.b];
        proof {
            assert(r@ =~= seq![self.r, self.g, self.b]);
        }
        r
    }

    /// Returns the `#rrggbb` hex code of the color as a string, with
    /// lower-case digits.
    pub fn hex_code(&self) -> (r: String)
        ensures
            r@ == spec_hex_code(*self),
    {
        let mut s = String::new();
        s.append("#");
        s.append(hex_digit_str(self.r / 16));
        s.append(hex_digit_str(self.r % 16));
        s.append(hex_digit_str(self.g / 16));
        s.append(hex_digit_str(self.g % 16));
        s.append(hex_digit_str(self.b / 16));
        s.append(hex_digit_str(self.b % 16));
        proof {
            reveal_strlit("#");
            assert(s@ =~= spec_hex_code(*self));
        }
        s
    }

    /// Returns the `Rgb` hex code of the color, packed as `0xRRGGBB`.
    pub fn hex(&self) -> (r: u32)
        ensures
            r == spec_rgb_hex(*self),
            r <= 0xFFFFFF,
    {
        (self.r as u32) * 0x10000 + (self.g as u32) * 0x100 + (self.b as u32)
    }
}

/// The squared Euclidean distance between two RGB colors.
pub open spec fn spec_rgb_distance_squared(a: Rgb, b: Rgb) -> int {
    let dr = crate::utility::spec_distance(a.r as int, b.r as int);
    let dg = crate::utility::spec_distance(a.g as int, b.g as int);
    let db = crate::utility::spec_distance(a.b as int, b.b as int);
    dr * dr + dg * dg + db * db
}

impl Rgb {
    /// Returns the squared Euclidean distance between the given colors
    /// in `Rgb` color space. The distance itself is the square root of
    /// this value, which only floating-point callers need.
    pub fn distance_squared(start: Rgb, end: Rgb) -> (r: u32)
        ensures
            r == spec_rgb_distance_squared(start, end),
    {
        let dr = crate::utility::distance(start.r, end.r) as u32;
        let dg = crate::utility::distance(start.g, end.g) as u32;
        let db = crate::utility::distance(start.b, end.b) as u32;
        proof {
            assert(dr * dr <= 65025 && dg * dg <= 65025 && db * db <= 65025) by (nonlinear_arith)
                requires
                    dr <= 255,
                    dg <= 255,
                    db <= 255,
            ;
        }
        dr * dr + dg * dg + db * db
    }
}

/// Setting an RGB component to the value it already has leaves the
/// color unchanged.
pub proof fn lemma_rgb_setter_identity(c: Rgb)
    ensures
        (Rgb { r: c.r, ..c }) == c,
        (Rgb { g: c.g, ..c }) == c,
        (Rgb { b: c.b, ..c }) == c,
{
}

impl Default for Rgb {
    /// The default color is black, `Rgb { r: 0, g: 0, b: 0 }`.
    fn default() -> (c: Self)
        ensures
            c == (Rgb { r: 0, g: 0, b: 0 }),
    {
        Rgb { r: 0, g: 0, b: 0 }
    }
}

impl From<u32> for Rgb {
    /// Decodes the low 24 bits of a packed `0xRRGGBB` word.
    fn from(hex: u32) -> (c: Self) {
        Rgb {
            r: ((hex / 0x10000) % 0x100) as u8,
            g: ((hex / 0x100) % 0x100) as u8,
            b: (hex % 0x100) as u8,
        }
    }
}

impl vstd::std_specs::convert::FromSpecImpl<u32> for Rgb {
    open spec fn obeys_from_spec() -> bool {
        true
    }

    open spec fn from_spec(hex: u32) -> Rgb {
        spec_rgb_of_u32(hex)
    }
}

impl From<[u8; 3]> for Rgb {
    /// Reads the `[R, G, B]` component octets.
    fn from(octets: [u8; 3]) -> (c: Self) {
        Rgb { r: octets[0], g: octets[1], b: octets[2] }
    }
}

impl vstd::std_specs::convert::FromSpecImpl<[u8; 3]> for Rgb {
    open spec fn obeys_from_spec() -> bool {
        true
    }

    open spec fn from_spec(octets: [u8; 3]) -> Rgb {
        Rgb { r: octets[0], g: octets[1], b: octets[2] }
    }
}

/// The RGB encoding of a CMYK color.
///
/// Each channel is the product of the inverted channel ratio and the
/// inverted key ratio, `(1 - c/255) * (1 - k/255)`, scaled back to
/// `[0, 255]` and rounded half-up.
pub open spec fn spec_rgb_of_cmyk(c: Cmyk) -> Rgb {
    Rgb {
        r: spec_round_div((255 - c.c) * (255 - c.k), 255) as u8,
        g: spec_round_div((255 - c.m) * (255 - c.k), 255) as u8,
        b: spec_round_div((255 - c.y) * (255 - c.k), 255) as u8,
    }
}

/// One RGB channel recovered from a CMYK channel and the key, as a
/// `u8`-ranged value.
fn channel_of_cmyk(channel: u8, key: u8) -> (r: u8)
    ensures
        r == spec_round_div((255 - channel) * (255 - key), 255),
{
    let cn: u32 = 255 - channel as u32;
    let kn: u32 = 255 - key as u32;
    proof {
        assert(cn * kn <= 255 * 255) by (nonlinear_arith)
            requires
                0 <= cn <= 255,
                0 <= kn <= 255,
        ;
        lemma_round_div_bounds(cn as int * kn as int, 255, 255);
    }
    let prod: u32 = cn * kn;
    ((2 * prod + 255) / 510) as u8
}

impl From<Cmyk> for Rgb {
    /// Converts a CMYK color to its RGB encoding.
    fn from(cmyk: Cmyk) -> (c: Self) {
        Rgb {
            r: channel_of_cmyk(cmyk.c, cmyk.k),
            g: channel_of_cmyk(cmyk.m, cmyk.k),
            b: channel_of_cmyk(cmyk.y, cmyk.k),
        }
    }
}

impl vstd::std_specs::convert::FromSpecImpl<Cmyk> for Rgb {
    open spec fn obeys_from_spec() -> bool {
        true
    }

    open spec fn from_spec(cmyk: Cmyk) -> Rgb {
        spec_rgb_of_cmyk(cmyk)
    }
}

/// Round-trip law: decoding the packed `0xRRGGBB` word of a color
/// yields the color again.
pub proof fn lemma_packed_hex_round_trip(c: Rgb)
    ensures
        0 <= spec_rgb_hex(c) <= 0xFFFFFF,
        spec_rgb_of_u32(spec_rgb_hex(c) as u32) == c,
{
    let h = spec_rgb_hex(c);
    vstd::arithmetic::div_mod::lemma_fundamental_div_mod_converse_div(
        h,
        0x10000,
        c.r as int,
        0x100 * c.g + c.b,
    );
    vstd::arithmetic::div_mod::lemma_small_mod(c.r as nat, 0x100);
    vstd::arithmetic::div_mod::lemma_fundamental_div_mod_converse_div(
        h,
        0x100,
        0x100 * c.r + c.g,
        c.b as int,
    );
    vstd::arithmetic::div_mod::lemma_fundamental_div_mod_converse_mod(
        0x100 * c.r + c.g,
        0x100,
        c.r as int,
        c.g as int,
    );
    vstd::arithmetic::div_mod::lemma_fundamental_div_mod_converse_mod(
        h,
        0x100,
        0x100 * c.r + c.g,
        c.b as int,
    );
}

/// The hex digit character of a value in `[0, 16)` is a hex digit and
/// denotes that value.
proof fn lemma_hex_digit_char_value(v: int)
    requires
        0 <= v < 16,
    ensures
        is_hex_digit(hex_digit_char(v)),
        hex_digit_value(hex_digit_char(v)) == v,
{
}

/// Round-trip law: formatting any RGB color as a hex code and parsing
/// the result yields the color again, exactly.
pub proof fn lemma_hex_code_round_trip(c: Rgb)
    ensures
        valid_hex_code_6(spec_hex_code(c)),
        spec_rgb_of_hex_code_6(spec_hex_code(c)) == c,
{
    let s = spec_hex_code(c);
    lemma_hex_digit_char_value(c.r as int / 16);
    lemma_hex_digit_char_value(c.r as int % 16);
    lemma_hex_digit_char_value(c.g as int / 16);
    lemma_hex_digit_char_value(c.g as int % 16);
    lemma_hex_digit_char_value(c.b as int / 16);
    lemma_hex_digit_char_value(c.b as int % 16);
    vstd::arithmetic::div_mod::lemma_fundamental_div_mod(c.r as int, 16);
    vstd::arithmetic::div_mod::lemma_fundamental_div_mod(c.g as int, 16);
    vstd::arithmetic::div_mod::lemma_fundamental_div_mod(c.b as int, 16);
}

/// Shorthand law: a well-formed three-digit code denotes exactly the
/// same color as the six-digit code obtained by doubling each digit.
pub proof fn lemma_hex_shorthand(s3: Seq<char>, s6: Seq<char>)
    requires
        valid_hex_code_3(s3),
        s6 =~= seq![s3[0], s3[1], s3[1], s3[2], s3[2], s3[3], s3[3]],
    ensures
        valid_hex_code_6(s6),
        spec_rgb_of_hex_code_6(s6) == spec_rgb_of_hex_code_3(s3),
{
    assert(is_hex_digit(s3[1]) && is_hex_digit(s3[2]) && is_hex_digit(s3[3]));
}

} // verus!
