//! RGBA colors.
//!
//! A color holds four channels (red, green, blue, alpha) as fixed-point
//! scalars, nominally in `[0, 1]`; see [`crate::fx`]. The named colors come
//! from the Tango palette, each channel being `n / 255` for a byte `n`,
//! truncated to micro-units.

use vstd::prelude::*;

verus! {

use crate::fx::{Fx, FX_ONE, divt, sat64};

/// RGBA color: (red, green, blue, alpha) channels in `[0, 1]`.
#[derive(PartialEq, Eq, Structural, Copy, Clone, Debug)]
pub struct Color(pub Fx, pub Fx, pub Fx, pub Fx);

/// The channel scalar standing for the byte value `n / 255`.
pub open spec fn channel_of_byte(n: int) -> int {
    divt(n * FX_ONE, 255)
}

/// What one channel contributes to [`Color::bytes_rgb`]: scaled by 255,
/// truncated toward zero, then clamped into the byte range.
pub open spec fn byte_of_channel(v: int) -> int {
    let w = divt(v * 255, FX_ONE as int);
    if w < 0 {
        0
    } else if w > 255 {
        255
    } else {
        w
    }
}

impl Color {
    /// An RGB color with an explicit alpha channel.
    pub fn rgba(r: Fx, g: Fx, b: Fx, a: Fx) -> (c: Color)
        ensures
            c == Color(r, g, b, a),
    {
        Color(r, g, b, a)
    }

    /// An opaque RGB color.
    pub fn rgb(r: Fx, g: Fx, b: Fx) -> (c: Color)
        ensures
            c == Color(r, g, b, FX_ONE),
    {
        Self::rgba(r, g, b, FX_ONE)
    }

    /// A gray: `0` is white, `1` is black.
    pub fn grayscale(p: Fx) -> (c: Color)
        ensures
            c.0 == sat64(FX_ONE - p),
            c.1 == c.0 && c.2 == c.0 && c.3 == FX_ONE,
    {
        let val = crate::fx::fx_sub_sat(FX_ONE, p);
        Self::rgb(val, val, val)
    }

    /// The red channel.
    pub fn red(&self) -> (v: Fx)
        ensures
            v == self.0,
    {
        self.0
    }

    /// The green channel.
    pub fn green(&self) -> (v: Fx)
        ensures
            v == self.1,
    {
        self.1
    }

    /// The blue channel.
    pub fn blue(&self) -> (v: Fx)
        ensures
            v == self.2,
    {
        self.2
    }

    /// Replace the red channel.
    pub fn set_red(&mut self, r: Fx)
        ensures
            *final(self) == Color(r, old(self).1, old(self).2, old(self).3),
    {
        self.0 = r;
    }

    /// Replace the green channel.
    pub fn set_green(&mut self, g: Fx)
        ensures
            *final(self) == Color(old(self).0, g, old(self).2, old(self).3),
    {
        self.1 = g;
    }

    /// Replace the blue channel.
    pub fn set_blue(&mut self, b: Fx)
        ensures
            *final(self) == Color(old(self).0, old(self).1, b, old(self).3),
    {
        self.2 = b;
    }

    /// The red, green and blue channels as bytes, each scaled by 255 and
    /// clamped into `0..=255`.
    pub fn bytes_rgb(&self) -> (r: [u8; 3])
        ensures
            r[0] == byte_of_channel(self.0 as int),
            r[1] == byte_of_channel(self.1 as int),
            r[2] == byte_of_channel(self.2 as int),
    {
        [channel_to_byte(self.0), channel_to_byte(self.1), channel_to_byte(self.2)]
    }
}

/// One channel scaled into a byte, saturating at both ends.
pub fn channel_to_byte(v: Fx) -> (r: u8)
    ensures
        r == byte_of_channel(v as int),
{
    proof {
        crate::fx::lemma_mul_i64_fits(v as int, 255);
    }
    let w: i128 = crate::fx::div_i128(v as i128 * 255, FX_ONE as i128);
    if w < 0 {
        0
    } else if w > 255 {
        255
    } else {
        w as u8
    }
}

/// An opaque color from one byte per channel, each mapped to `n / 255`.
pub fn from_bytes_rgb(r: u8, g: u8, b: u8) -> (c: Color)
    ensures
        c == Color(
            channel_of_byte(r as int) as Fx,
            channel_of_byte(g as int) as Fx,
            channel_of_byte(b as int) as Fx,
            FX_ONE,
        ),
{
    Color(byte_channel(r), byte_channel(g), byte_channel(b), FX_ONE)
}

fn byte_channel(n: u8) -> (v: Fx)
    ensures
        v == channel_of_byte(n as int),
{
    (n as i64) * FX_ONE / 255
}

/// The opaque color whose channels are the bytes `r`, `g`, `b`, each
/// mapped to `n / 255`.
pub open spec fn named_rgb(r: int, g: int, b: int) -> Color {
    Color(
        channel_of_byte(r) as Fx,
        channel_of_byte(g) as Fx,
        channel_of_byte(b) as Fx,
        FX_ONE,
    )
}

/// Scarlet Red - Light - #EF2929
pub fn light_red() -> (c: Color)
    ensures
        c == named_rgb(239, 41, 41),
{
    from_bytes_rgb(239, 41, 41)
}

/// Scarlet Red - Regular - #CC0000
pub fn red() -> (c: Color)
    ensures
        c == named_rgb(204, 0, 0),
{
    from_bytes_rgb(204, 0, 0)
}

/// Scarlet Red - Dark - #A40000
pub fn dark_red() -> (c: Color)
    ensures
        c == named_rgb(164, 0, 0),
{
    from_bytes_rgb(164, 0, 0)
}

/// Orange - Light - #FCAF3E
pub fn light_orange() -> (c: Color)
    ensures
        c == named_rgb(252, 175, 62),
{
    from_bytes_rgb(252, 175, 62)
}

/// Orange - Regular - #F57900
pub fn orange() -> (c: Color)
    ensures
        c == named_rgb(245, 121, 0),
{
    from_bytes_rgb(245, 121, 0)
}

/// Orange - Dark - #CE5C00
pub fn dark_orange() -> (c: Color)
    ensures
        c == named_rgb(206, 92, 0),
{
    from_bytes_rgb(206, 92, 0)
}

/// Butter - Light - #FCE94F
pub fn light_yellow() -> (c: Color)
    ensures
        c == named_rgb(252, 233, 79),
{
    from_bytes_rgb(252, 233, 79)
}

/// Butter - Regular - #EDD400
pub fn yellow() -> (c: Color)
    ensures
        c == named_rgb(237, 212, 0),
{
    from_bytes_rgb(237, 212, 0)
}

/// Butter - Dark - #C4A000
pub fn dark_yellow() -> (c: Color)
    ensures
        c == named_rgb(196, 160, 0),
{
    from_bytes_rgb(196, 160, 0)
}

/// Chameleon - Light - #8AE234
pub fn light_green() -> (c: Color)
    ensures
        c == named_rgb(138, 226, 52),
{
    from_bytes_rgb(138, 226, 52)
}

/// Chameleon - Regular - #73D216
pub fn green() -> (c: Color)
    ensures
        c == named_rgb(115, 210, 22),
{
    from_bytes_rgb(115, 210, 22)
}

/// Chameleon - Dark - #4E9A06
pub fn dark_green() -> (c: Color)
    ensures
        c == named_rgb(78, 154, 6),
{
    from_bytes_rgb(78, 154, 6)
}

/// Sky Blue - Light - #729FCF
pub fn light_blue() -> (c: Color)
    ensures
        c == named_rgb(114, 159, 207),
{
    from_bytes_rgb(114, 159, 207)
}

/// Sky Blue - Regular - #3465A4
pub fn blue() -> (c: Color)
    ensures
        c == named_rgb(52, 101, 164),
{
    from_bytes_rgb(52, 101, 164)
}

/// Sky Blue - Dark - #204A87
pub fn dark_blue() -> (c: Color)
    ensures
        c == named_rgb(32, 74, 135),
{
    from_bytes_rgb(32, 74, 135)
}

/// Plum - Light - #AD7FA8
pub fn light_purple() -> (c: Color)
    ensures
        c == named_rgb(173, 127, 168),
{
    from_bytes_rgb(173, 127, 168)
}

/// Plum - Regular - #75507B
pub fn purple() -> (c: Color)
    ensures
        c == named_rgb(117, 80, 123),
{
    from_bytes_rgb(117, 80, 123)
}

/// Plum - Dark - #5C3566
pub fn dark_purple() -> (c: Color)
    ensures
        c == named_rgb(92, 53, 102),
{
    from_bytes_rgb(92, 53, 102)
}

/// Chocolate - Light - #E9B96E
pub fn light_brown() -> (c: Color)
    ensures
        c == named_rgb(233, 185, 110),
{
    from_bytes_rgb(233, 185, 110)
}

/// Chocolate - Regular - #C17D11
pub fn brown() -> (c: Color)
    ensures
        c == named_rgb(193, 125, 17),
{
    from_bytes_rgb(193, 125, 17)
}

/// Chocolate - Dark - #8F5902
pub fn dark_brown() -> (c: Color)
    ensures
        c == named_rgb(143, 89, 2),
{
    from_bytes_rgb(143, 89, 2)
}

/// Straight black.
pub fn black() -> (c: Color)
    ensures
        c == named_rgb(0, 0, 0),
        c == Color(0, 0, 0, FX_ONE),
{
    from_bytes_rgb(0, 0, 0)
}

/// Straight white.
pub fn white() -> (c: Color)
    ensures
        c == named_rgb(255, 255, 255),
        c == Color(FX_ONE, FX_ONE, FX_ONE, FX_ONE),
{
    from_bytes_rgb(255, 255, 255)
}

/// Aluminium - Light - #EEEEEC
pub fn light_gray() -> (c: Color)
    ensures
        c == named_rgb(238, 238, 236),
{
    from_bytes_rgb(238, 238, 236)
}

/// Aluminium - Regular - #D3D7CF
pub fn gray() -> (c: Color)
    ensures
        c == named_rgb(211, 215, 207),
{
    from_bytes_rgb(211, 215, 207)
}

/// Aluminium - Dark - #BABDB6
pub fn dark_gray() -> (c: Color)
    ensures
        c == named_rgb(186, 189, 182),
{
    from_bytes_rgb(186, 189, 182)
}

/// Aluminium - Light - #EEEEEC (alternative spelling)
pub fn light_grey() -> (c: Color)
    ensures
        c == named_rgb(238, 238, 236),
{
    from_bytes_rgb(238, 238, 236)
}

/// Aluminium - Regular - #D3D7CF (alternative spelling)
pub fn grey() -> (c: Color)
    ensures
        c == named_rgb(211, 215, 207),
{
    from_bytes_rgb(211, 215, 207)
}

/// Aluminium - Dark - #BABDB6 (alternative spelling)
pub fn dark_grey() -> (c: Color)
    ensures
        c == named_rgb(186, 189, 182),
{
    from_bytes_rgb(186, 189, 182)
}

/// Charcoal - Light - #888A85
pub fn light_charcoal() -> (c: Color)
    ensures
        c == named_rgb(136, 138, 133),
{
    from_bytes_rgb(136, 138, 133)
}

/// Charcoal - Regular - #555753
pub fn charcoal() -> (c: Color)
    ensures
        c == named_rgb(85, 87, 83),
{
    from_bytes_rgb(85, 87, 83)
}

/// Charcoal - Dark - #2E3436
pub fn dark_charcoal() -> (c: Color)
    ensures
        c == named_rgb(46, 52, 54),
{
    from_bytes_rgb(46, 52, 54)
}

/// Fully transparent black.
pub fn transparent() -> (c: Color)
    ensures
        c == Color(0, 0, 0, 0),
{
    Color(0, 0, 0, 0)
}

} // verus!
