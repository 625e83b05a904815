//! The facade type aggregating all color spaces behind one handle.
//!
//! A `Color` stores its value canonically as RGB and derives every other
//! space's components on demand, so the conversion graph always pivots
//! through RGB.

use vstd::prelude::*;

use crate::cmyk::spec_cmyk_of_rgb;
use crate::cmyk::spec_cmyk_hex;
use crate::cmyk::Cmyk;
use crate::rgb::spec_rgb_hex;
use crate::rgb::spec_rgb_of_cmyk;
use crate::rgb::Rgb;

verus! {

/// An RGB encoded color with extended functionality.
#[derive(Debug, Clone, Copy, PartialEq, Eq, Structural, Hash)]
pub struct Color {
    rgb: Rgb,
}

impl View for Color {
    type V = Rgb;

    /// The canonical RGB value of the color.
    closed spec fn view(&self) -> Rgb {
        self.rgb
    }
}

impl Color {
    /// Constructs a new `Color` from its canonical RGB value.
    pub fn new(rgb: Rgb) -> (c: Self)
        ensures
            c@ == rgb,
    {
        Color { rgb }
    }

    /// Returns the red RGB component of the color.
    pub fn red(&self) -> (r: u8)
        ensures
            r == self@.r,
    {
        self.rgb.r
    }

    /// Returns the green RGB component of the color.
    pub fn green(&self) -> (r: u8)
        ensures
            r == self@.g,
    {
        self.rgb.g
    }

    /// Returns the blue RGB component of the color.
    pub fn blue(&self) -> (r: u8)
        ensures
            r == self@.b,
    {
        self.rgb.b
    }

    /// Returns the cyan CMYK component of the color.
    pub fn cyan(&self) -> (r: u8)
        ensures
            r == spec_cmyk_of_rgb(self@).c,
    {
        Cmyk::from(self.rgb).c
    }

    /// Returns the magenta CMYK component of the color.
    pub fn magenta(&self) -> (r: u8)
        ensures
            r == spec_cmyk_of_rgb(self@).m,
    {
        Cmyk::from(self.rgb).m
    }

    /// Returns the yellow CMYK component of the color.
    pub fn yellow(&self) -> (r: u8)
        ensures
            r == spec_cmyk_of_rgb(self@).y,
    {
        Cmyk::from(self.rgb).y
    }

    /// Returns the key CMYK component of the color.
    pub fn key(&self) -> (r: u8)
        ensures
            r == spec_cmyk_of_rgb(self@).k,
    {
        Cmyk::from(self.rgb).k
    }

    /// Sets the red RGB component of the color.
    pub fn set_red(&mut self, value: u8)
        ensures
            final(self)@ == (Rgb { r: value, ..old(self)@ }),
    {
        self.rgb.r = value;
    }

    /// Sets the green RGB component of the color.
    pub fn set_green(&mut self, value: u8)
        ensures
            final(self)@ == (Rgb { g: value, ..old(self)@ }),
    {
        self.rgb.g = value;
    }

    /// Sets the blue RGB component of the color.
    pub fn set_blue(&mut self, value: u8)
        ensures
            final(self)@ == (Rgb { b: value, ..old(self)@ }),
    {
        self.rgb.b = value;
    }

    /// Sets the cyan CMYK component of the color.
    ///
    /// CMYK has more degrees of freedom than RGB, so the new value is
    /// canonicalized through RGB: reading the component back afterwards
    /// may not return the value that was set.
    pub fn set_cyan(&mut self, value: u8)
        ensures
            final(self)@ == spec_rgb_of_cmyk(Cmyk { c: value, ..spec_cmyk_of_rgb(old(self)@) }),
    {
        let mut t = Cmyk::from(self.rgb);
        t.c = value;
        self.rgb = Rgb::from(t);
    }

    /// Sets the magenta CMYK component of the color.
    ///
    /// The new value is canonicalized through RGB, as for `set_cyan`.
    pub fn set_magenta(&mut self, value: u8)
        ensures
            final(self)@ == spec_rgb_of_cmyk(Cmyk { m: value, ..spec_cmyk_of_rgb(old(self)@) }),
    {
        let mut t = Cmyk::from(self.rgb);
        t.m = value;
        self.rgb = Rgb::from(t);
    }

    /// Sets the yellow CMYK component of the color.
    ///
    /// The new value is canonicalized through RGB, as for `set_cyan`.
    pub fn set_yellow(&mut self, value: u8)
        ensures
            final(self)@ == spec_rgb_of_cmyk(Cmyk { y: value, ..spec_cmyk_of_rgb(old(self)@) }),
    {
        let mut t = Cmyk::from(self.rgb);
        t.y = value;
        self.rgb = Rgb::from(t);
    }

    /// Sets the key CMYK component of the color.
    ///
    /// The new value is canonicalized through RGB, as for `set_cyan`.
    pub fn set_key(&mut self, value: u8)
        ensures
            final(self)@ == spec_rgb_of_cmyk(Cmyk { k: value, ..spec_cmyk_of_rgb(old(self)@) }),
    {
        let mut t = Cmyk::from(self.rgb);
        t.k = value;
        self.rgb = Rgb::from(t);
    }

    /// Returns an array containing the `[R, G, B]` component octets.
    pub fn rgb_octets(&self) -> (r: [u8; 3])
        ensures
            r@ == seq![self@.r, self@.g, self@.b],
    {
        self.rgb.octets()
    }

    /// Returns an array containing the `[C, M, Y, K]` component octets.
    pub fn cmyk_octets(&self) -> (r: [u8; 4])
        ensures
            r@ == seq![
                spec_cmyk_of_rgb(self@).c,
                spec_cmyk_of_rgb(self@).m,
                spec_cmyk_of_rgb(self@).y,
                spec_cmyk_of_rgb(self@).k,
            ],
    {
        Cmyk::from(self.rgb).octets()
    }

    /// Returns the hex code of the color, packed as `0xRRGGBB`.
    pub fn rgb_hex(&self) -> (r: u32)
        ensures
            r == spec_rgb_hex(self@),
    {
        self.rgb.hex()
    }

    /// Returns the CMYK hex code of the color, packed as `0xCCMMYYKK`.
    pub fn cmyk_hex(&self) -> (r: u32)
        ensures
            r == spec_cmyk_hex(spec_cmyk_of_rgb(self@)),
    {
        Cmyk::from(self.rgb).hex()
    }
}

impl Default for Color {
    /// The default color is black.
    fn default() -> (c: Self)
        ensures
            c@ == (Rgb { r: 0, g: 0, b: 0 }),
    {
        Color { rgb: Rgb { r: 0, g: 0, b: 0 } }
    }
}

impl From<Rgb> for Color {
    /// Wraps an RGB value as a `Color`.
    fn from(rgb: Rgb) -> (c: Color)
        ensures
            c@ == rgb,
    {
        Color { rgb }
    }
}

impl vstd::std_specs::convert::FromSpecImpl<Rgb> for Color {
    open spec fn obeys_from_spec() -> bool {
        true
    }

    closed spec fn from_spec(rgb: Rgb) -> Color {
        Color { rgb }
    }
}

impl From<Cmyk> for Color {
    /// Converts a CMYK color to its canonical RGB form.
    fn from(cmyk: Cmyk) -> (c: Color)
        ensures
            c@ == spec_rgb_of_cmyk(cmyk),
    {
        Color { rgb: Rgb::from(cmyk) }
    }
}

impl vstd::std_specs::convert::FromSpecImpl<Cmyk> for Color {
    open spec fn obeys_from_spec() -> bool {
        true
    }

    closed spec fn from_spec(cmyk: Cmyk) -> Color {
        Color { rgb: spec_rgb_of_cmyk(cmyk) }
    }
}

/// Setting any CMYK component of a color to the value it already has
/// leaves the color unchanged, because the round trip through CMYK is
/// the identity.
pub proof fn lemma_color_cmyk_setter_identity(col: Color)
    ensures
        spec_rgb_of_cmyk(Cmyk { c: spec_cmyk_of_rgb(col@).c, ..spec_cmyk_of_rgb(col@) }) == col@,
        spec_rgb_of_cmyk(Cmyk { m: spec_cmyk_of_rgb(col@).m, ..spec_cmyk_of_rgb(col@) }) == col@,
        spec_rgb_of_cmyk(Cmyk { y: spec_cmyk_of_rgb(col@).y, ..spec_cmyk_of_rgb(col@) }) == col@,
        spec_rgb_of_cmyk(Cmyk { k: spec_cmyk_of_rgb(col@).k, ..spec_cmyk_of_rgb(col@) }) == col@,
{
    crate::cmyk::lemma_cmyk_setter_identity(col@);
}

} // verus!
