//! The 32-bit CMYK color space: a subtractive model converted to and
//! from RGB.

use vstd::prelude::*;

use crate::rgb::spec_rgb_of_cmyk;
use crate::rgb::Rgb;
use crate::utility::lemma_round_div_bounds;
use crate::utility::spec_round_div;

verus! {

/// The encoded CMYK color.
///
/// CMYK has one more degree of freedom than RGB, so many CMYK values
/// denote the same color; converting to RGB and back canonicalizes.
#[derive(Debug, Clone, Copy, PartialEq, Eq, Structural, Hash)]
pub struct Cmyk {
    /// The cyan component.
    pub c: u8,
    /// The magenta component.
    pub m: u8,
    /// The yellow component.
    pub y: u8,
    /// The key (black) component.
    pub k: u8,
}

/// The packed `0xCCMMYYKK` code of a CMYK color.
pub open spec fn spec_cmyk_hex(c: Cmyk) -> int {
    0x1000000 * c.c + 0x10000 * c.m + 0x100 * c.y + c.k
}

/// The CMYK color encoded by a packed `0xCCMMYYKK` word.
pub open spec fn spec_cmyk_of_u32(hex: u32) -> Cmyk {
    Cmyk {
        c: (hex as int / 0x1000000) as u8,
        m: ((hex as int / 0x10000) % 0x100) as u8,
        y: ((hex as int / 0x100) % 0x100) as u8,
        k: (hex as int % 0x100) as u8,
    }
}

impl Cmyk {
    /// Constructs a new `Cmyk` color.
    pub fn new(cyan: u8, magenta: u8, yellow: u8, key: u8) -> (c: Self)
        ensures
            c == (Cmyk { c: cyan, m: magenta, y: yellow, k: key }),
    {
        Cmyk { c: cyan, m: magenta, y: yellow, k: key }
    }

    /// Returns the cyan component of the color.
    pub fn cyan(&self) -> (r: u8)
        ensures
            r == self.c,
    {
        self.c
    }

    /// Returns the magenta component of the color.
    pub fn magenta(&self) -> (r: u8)
        ensures
            r == self.m,
    {
        self.m
    }

    /// Returns the yellow component of the color.
    pub fn yellow(&self) -> (r: u8)
        ensures
            r == self.y,
    {
        self.y
    }

    /// Returns the key component of the color.
    pub fn key(&self) -> (r: u8)
        ensures
            r == self.k,
    {
        self.k
    }

    /// Sets the cyan component of the color.
    pub fn set_cyan(&mut self, value: u8)
        ensures
            *final(self) == (Cmyk { c: value, ..*old(self) }),
    {
        self.c = value;
    }

    /// Sets the magenta component of the color.
    pub fn set_magenta(&mut self, value: u8)
        ensures
            *final(self) == (Cmyk { m: value, ..*old(self) }),
    {
        self.m = value;
    }

    /// Sets the yellow component of the color.
    pub fn set_yellow(&mut self, value: u8)
        ensures
            *final(self) == (Cmyk { y: value, ..*old(self) }),
    {
        self.y = value;
    }

    /// Sets the key component of the color.
    pub fn set_key(&mut self, value: u8)
        ensures
            *final(self) == (Cmyk { k: value, ..*old(self) }),
    {
        self.k = value;
    }

    /// Returns an array containing the `[C, M, Y, K]` component octets.
    pub fn octets(&self) -> (r: [u8; 4])
        ensures
            r@ == seq![self.c, self.m, self.y, self.k],
    {
        let r = [self.c, self.m, self.y, self.k];
        proof {
            assert(r@ =~= seq![self.c, self.m, self.y, self.k]);
        }
        r
    }

    /// Returns the hex code of the color, packed as `0xCCMMYYKK`.
    pub fn hex(&self) -> (r: u32)
        ensures
            r == spec_cmyk_hex(*self),
    {
        (self.c as u32) * 0x1000000 + (self.m as u32) * 0x10000 + (self.y as u32) * 0x100
            + (self.k as u32)
    }
}

/// The squared Euclidean distance between two CMYK colors.
pub open spec fn spec_cmyk_distance_squared(a: Cmyk, b: Cmyk) -> int {
    let dc = crate::utility::spec_distance(a.c as int, b.c as int);
    let dm = crate::utility::spec_distance(a.m as int, b.m as int);
    let dy = crate::utility::spec_distance(a.y as int, b.y as int);
    let dk = crate::utility::spec_distance(a.k as int, b.k as int);
    dc * dc + dm * dm + dy * dy + dk * dk
}

impl Cmyk {
    /// Returns the squared Euclidean distance between the given colors
    /// in `Cmyk` color space. The distance itself is the square root of
    /// this value, which only floating-point callers need.
    pub fn distance_squared(start: Cmyk, end: Cmyk) -> (r: u32)
        ensures
            r == spec_cmyk_distance_squared(start, end),
    {
        let dc = crate::utility::distance(start.c, end.c) as u32;
        let dm = crate::utility::distance(start.m, end.m) as u32;
        let dy = crate::utility::distance(start.y, end.y) as u32;
        let dk = crate::utility::distance(start.k, end.k) as u32;
        proof {
            assert(dc * dc <= 65025 && dm * dm <= 65025 && dy * dy <= 65025 && dk * dk
                <= 65025) by (nonlinear_arith)
                requires
                    dc <= 255,
                    dm <= 255,
                    dy <= 255,
                    dk <= 255,
            ;
        }
        dc * dc + dm * dm + dy * dy + dk * dk
    }
}

/// Round-trip law: decoding the packed `0xCCMMYYKK` word of a color
/// yields the color again.
pub proof fn lemma_packed_cmyk_hex_round_trip(c: Cmyk)
    ensures
        0 <= spec_cmyk_hex(c) <= 0xFFFFFFFF,
        spec_cmyk_of_u32(spec_cmyk_hex(c) as u32) == c,
{
    let h = spec_cmyk_hex(c);
    vstd::arithmetic::div_mod::lemma_fundamental_div_mod_converse_div(
        h,
        0x1000000,
        c.c as int,
        0x10000 * c.m + 0x100 * c.y + c.k,
    );
    vstd::arithmetic::div_mod::lemma_fundamental_div_mod_converse_div(
        h,
        0x10000,
        0x100 * c.c + c.m,
        0x100 * c.y + c.k,
    );
    vstd::arithmetic::div_mod::lemma_fundamental_div_mod_converse_mod(
        0x100 * c.c + c.m,
        0x100,
        c.c as int,
        c.m as int,
    );
    vstd::arithmetic::div_mod::lemma_fundamental_div_mod_converse_div(
        h,
        0x100,
        0x10000 * c.c + 0x100 * c.m + c.y,
        c.k as int,
    );
    vstd::arithmetic::div_mod::lemma_fundamental_div_mod_converse_mod(
        0x10000 * c.c + 0x100 * c.m + c.y,
        0x100,
        0x100 * c.c + c.m,
        c.y as int,
    );
    vstd::arithmetic::div_mod::lemma_fundamental_div_mod_converse_mod(
        h,
        0x100,
        0x10000 * c.c + 0x100 * c.m + c.y,
        c.k as int,
    );
}

/// Setting a CMYK component of a `Cmyk` value to the value it already
/// has leaves the value unchanged.
pub proof fn lemma_cmyk_direct_setter_identity(c: Cmyk)
    ensures
        (Cmyk { c: c.c, ..c }) == c,
        (Cmyk { m: c.m, ..c }) == c,
        (Cmyk { y: c.y, ..c }) == c,
        (Cmyk { k: c.k, ..c }) == c,
{
}

impl Default for Cmyk {
    /// The default color is white, `Cmyk { c: 0, m: 0, y: 0, k: 0 }`.
    fn default() -> (c: Self)
        ensures
            c == (Cmyk { c: 0, m: 0, y: 0, k: 0 }),
    {
        Cmyk { c: 0, m: 0, y: 0, k: 0 }
    }
}

impl From<u32> for Cmyk {
    /// Decodes a packed `0xCCMMYYKK` word.
    fn from(hex: u32) -> (c: Self) {
        Cmyk {
            c: (hex / 0x1000000) as u8,
            m: ((hex / 0x10000) % 0x100) as u8,
            y: ((hex / 0x100) % 0x100) as u8,
            k: (hex % 0x100) as u8,
        }
    }
}

impl vstd::std_specs::convert::FromSpecImpl<u32> for Cmyk {
    open spec fn obeys_from_spec() -> bool {
        true
    }

    open spec fn from_spec(hex: u32) -> Cmyk {
        spec_cmyk_of_u32(hex)
    }
}

impl From<[u8; 4]> for Cmyk {
    /// Reads the `[C, M, Y, K]` component octets.
    fn from(octets: [u8; 4]) -> (c: Self) {
        Cmyk { c: octets[0], m: octets[1], y: octets[2], k: octets[3] }
    }
}

impl vstd::std_specs::convert::FromSpecImpl<[u8; 4]> for Cmyk {
    open spec fn obeys_from_spec() -> bool {
        true
    }

    open spec fn from_spec(octets: [u8; 4]) -> Cmyk {
        Cmyk { c: octets[0], m: octets[1], y: octets[2], k: octets[3] }
    }
}

/// The largest of the three RGB channels.
pub open spec fn spec_rgb_max(c: Rgb) -> int {
    if c.r >= c.g && c.r >= c.b {
        c.r as int
    } else if c.g >= c.b {
        c.g as int
    } else {
        c.b as int
    }
}

/// The CMYK encoding of an RGB color.
///
/// Pure black is a degenerate case (the general formula would divide by
/// zero) and is defined as `C = M = Y = 0, K = 255`. Otherwise the key is
/// the inverted maximum channel, and each of C, M, Y is the channel's
/// shortfall against the maximum, `(max - v) / max`, scaled to `[0, 255]`
/// and rounded half-up.
pub open spec fn spec_cmyk_of_rgb(c: Rgb) -> Cmyk {
    let max = spec_rgb_max(c);
    if max == 0 {
        Cmyk { c: 0, m: 0, y: 0, k: 255 }
    } else {
        Cmyk {
            c: spec_round_div(255 * (max - c.r), max) as u8,
            m: spec_round_div(255 * (max - c.g), max) as u8,
            y: spec_round_div(255 * (max - c.b), max) as u8,
            k: (255 - max) as u8,
        }
    }
}

/// One CMYK channel computed from an RGB channel and the maximum
/// channel, as a `u8`-ranged value.
fn channel_of_rgb(value: u8, max: u8) -> (r: u8)
    requires
        0 < max,
        value <= max,
    ensures
        r == spec_round_div(255 * (max as int - value as int), max as int),
{
    proof {
        assert(255 * (max - value) <= 255 * max) by (nonlinear_arith)
            requires
                0 <= value <= max,
        ;
        lemma_round_div_bounds(255 * (max as int - value as int), max as int, 255);
    }
    let n: u32 = 255 * (max as u32 - value as u32);
    ((2 * n + max as u32) / (2 * max as u32)) as u8
}

impl From<Rgb> for Cmyk {
    /// Converts an RGB color to its CMYK encoding.
    fn from(rgb: Rgb) -> (c: Self) {
        let mut max = rgb.r;
        if rgb.g > max {
            max = rgb.g;
        }
        if rgb.b > max {
            max = rgb.b;
        }
        if max == 0 {
            Cmyk { c: 0, m: 0, y: 0, k: 255 }
        } else {
            Cmyk {
                c: channel_of_rgb(rgb.r, max),
                m: channel_of_rgb(rgb.g, max),
                y: channel_of_rgb(rgb.b, max),
                k: 255 - max,
            }
        }
    }
}

impl vstd::std_specs::convert::FromSpecImpl<Rgb> for Cmyk {
    open spec fn obeys_from_spec() -> bool {
        true
    }

    open spec fn from_spec(rgb: Rgb) -> Cmyk {
        spec_cmyk_of_rgb(rgb)
    }
}

/// Converting one channel to CMYK and back recovers it exactly: rounding
/// the scaled shortfall against `max` loses less than half a unit, which
/// the second half-up rounding absorbs.
proof fn lemma_channel_round_trip(max: int, v: int)
    requires
        0 < max <= 255,
        0 <= v <= max,
    ensures
        spec_round_div((255 - spec_round_div(255 * (max - v), max)) * max, 255) == v,
{
    let a1 = 2 * (255 * (max - v)) + max;
    let d1 = 2 * max;
    let c = a1 / d1;
    assert(spec_round_div(255 * (max - v), max) == c);
    vstd::arithmetic::div_mod::lemma_fundamental_div_mod(a1, d1);
    vstd::arithmetic::div_mod::lemma_mod_division_less_than_divisor(a1, d1);
    let r1 = a1 % d1;
    let a2 = 2 * ((255 - c) * max) + 255;
    assert(spec_round_div((255 - c) * max, 255) == a2 / 510);
    assert(510 * v <= a2 < 510 * v + 510) by (nonlinear_arith)
        requires
            0 < max <= 255,
            0 <= v <= max,
            a1 == 2 * (255 * (max - v)) + max,
            a1 == d1 * c + r1,
            0 <= r1 < d1,
            d1 == 2 * max,
            a2 == 2 * ((255 - c) * max) + 255,
    ;
    vstd::arithmetic::div_mod::lemma_fundamental_div_mod_converse_div(a2, 510, v, a2 - 510 * v);
}

/// Round-trip law: converting any RGB color to CMYK and back to RGB is
/// the identity, including the degenerate pure-black case.
pub proof fn lemma_rgb_cmyk_round_trip(c: Rgb)
    ensures
        spec_rgb_of_cmyk(spec_cmyk_of_rgb(c)) == c,
{
    let max = spec_rgb_max(c);
    if max == 0 {
        // Pure black: both conversions are concrete values.
        assert(spec_rgb_of_cmyk(spec_cmyk_of_rgb(c)) == c);
    } else {
        lemma_round_div_bounds(255 * (max - c.r), max, 255);
        lemma_round_div_bounds(255 * (max - c.g), max, 255);
        lemma_round_div_bounds(255 * (max - c.b), max, 255);
        lemma_channel_round_trip(max, c.r as int);
        lemma_channel_round_trip(max, c.g as int);
        lemma_channel_round_trip(max, c.b as int);
    }
}

/// Setting a CMYK component of a color to the value it already has, then
/// converting back to RGB, reproduces the color: the setter is a no-op on
/// its own current value.
pub proof fn lemma_cmyk_setter_identity(c: Rgb)
    ensures
        spec_rgb_of_cmyk(Cmyk { c: spec_cmyk_of_rgb(c).c, ..spec_cmyk_of_rgb(c) }) == c,
        spec_rgb_of_cmyk(Cmyk { m: spec_cmyk_of_rgb(c).m, ..spec_cmyk_of_rgb(c) }) == c,
        spec_rgb_of_cmyk(Cmyk { y: spec_cmyk_of_rgb(c).y, ..spec_cmyk_of_rgb(c) }) == c,
        spec_rgb_of_cmyk(Cmyk { k: spec_cmyk_of_rgb(c).k, ..spec_cmyk_of_rgb(c) }) == c,
{
    lemma_rgb_cmyk_round_trip(c);
}

} // verus!
