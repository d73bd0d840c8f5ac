//! A three-channel color value in blue-red-green order (the order the strip
//! expects on the wire), with truncating brightness scaling.

use vstd::prelude::*;

verus! {

/// Brightness scaling of one 8-bit channel: `c * a / 255` with truncating
/// division, so brightness 0 turns the channel fully off and brightness 255
/// leaves it unscaled.
pub open spec fn scale_channel(c: u8, a: u8) -> int {
    (c * a) / 255
}

/// The 24-bit packed form of a brightness-scaled color: blue in bits 16..24,
/// red in bits 8..16, green in bits 0..8.
pub open spec fn packed_brg(b: u8, r: u8, g: u8, a: u8) -> int {
    scale_channel(b, a) * 0x10000 + scale_channel(r, a) * 0x100 + scale_channel(g, a)
}

/// One pixel color. Immutable value type; a fresh one is made per pixel per
/// frame.
#[derive(Clone, Copy)]
pub struct BRG {
    b: u8,
    r: u8,
    g: u8,
}

impl BRG {
    /// The color with the given channels, as a spec value.
    pub closed spec fn spec_new(b: u8, r: u8, g: u8) -> BRG {
        BRG { b, r, g }
    }

    /// The blue channel.
    pub closed spec fn spec_b(&self) -> u8 {
        self.b
    }

    /// The red channel.
    pub closed spec fn spec_r(&self) -> u8 {
        self.r
    }

    /// The green channel.
    pub closed spec fn spec_g(&self) -> u8 {
        self.g
    }

    /// The packed scaled value of this color at brightness `a`.
    pub open spec fn spec_into_u32(&self, a: u8) -> int {
        packed_brg(self.spec_b(), self.spec_r(), self.spec_g(), a)
    }

    pub fn new(b: u8, r: u8, g: u8) -> (c: Self)
        ensures
            c == BRG::spec_new(b, r, g),
            c.spec_b() == b,
            c.spec_r() == r,
            c.spec_g() == g,
    {
        Self { b, r, g }
    }

    /// This color with the blue channel replaced.
    pub fn b(self, b: u8) -> (c: Self)
        ensures
            c.spec_b() == b,
            c.spec_r() == self.spec_r(),
            c.spec_g() == self.spec_g(),
    {
        Self { b, ..self }
    }

    /// This color with the red channel replaced.
    pub fn r(self, r: u8) -> (c: Self)
        ensures
            c.spec_b() == self.spec_b(),
            c.spec_r() == r,
            c.spec_g() == self.spec_g(),
    {
        Self { r, ..self }
    }

    /// This color with the green channel replaced.
    pub fn g(self, g: u8) -> (c: Self)
        ensures
            c.spec_b() == self.spec_b(),
            c.spec_r() == self.spec_r(),
            c.spec_g() == g,
    {
        Self { g, ..self }
    }

    /// All channels off.
    pub fn off() -> (c: Self)
        ensures
            c == BRG::spec_new(0, 0, 0),
            c.spec_b() == 0,
            c.spec_r() == 0,
            c.spec_g() == 0,
    {
        Self::new(0, 0, 0)
    }

    /// Scale every channel by brightness `a` and pack the result.
    pub fn into_u32(&self, a: u8) -> (p: u32)
        ensures
            p == self.spec_into_u32(a),
    {
        proof {
            lemma_u8_product_fits(self.b, a);
            lemma_u8_product_fits(self.r, a);
            lemma_u8_product_fits(self.g, a);
        }
        let sb: u32 = (self.b as u32 * a as u32) / 255;
        let sr: u32 = (self.r as u32 * a as u32) / 255;
        let sg: u32 = (self.g as u32 * a as u32) / 255;
        proof {
            lemma_scale_channel_bounds(self.b, a);
            lemma_scale_channel_bounds(self.r, a);
            lemma_scale_channel_bounds(self.g, a);
            assert((sb << 16u32) | (sr << 8u32) | sg == sb * 0x10000 + sr * 0x100 + sg)
                by (bit_vector)
                requires
                    sb < 256,
                    sr < 256,
                    sg < 256,
            ;
        }
        (sb << 16u32) | (sr << 8u32) | sg
    }
}

/// The channels of a spec-constructed color are the ones it was given.
pub broadcast proof fn lemma_spec_new_channels(b: u8, r: u8, g: u8)
    ensures
        (#[trigger] BRG::spec_new(b, r, g)).spec_b() == b,
        BRG::spec_new(b, r, g).spec_r() == r,
        BRG::spec_new(b, r, g).spec_g() == g,
{
}

/// The product of two 8-bit values stays well inside 32 bits.
pub proof fn lemma_u8_product_fits(c: u8, a: u8)
    ensures
        0 <= c * a <= 65025,
{
    assert(c * a <= 65025) by (nonlinear_arith)
        requires
            c <= 255,
            a <= 255,
    ;
}

/// A scaled channel never leaves the 8-bit range.
pub proof fn lemma_scale_channel_bounds(c: u8, a: u8)
    ensures
        0 <= scale_channel(c, a) <= 255,
{
    assert(c * a <= 65025) by (nonlinear_arith)
        requires
            c <= 255,
            a <= 255,
    ;
    assert((c * a) / 255 <= 255);
}

/// A packed scaled color fits in 24 bits.
pub proof fn lemma_packed_fits(b: u8, r: u8, g: u8, a: u8)
    ensures
        0 <= packed_brg(b, r, g, a) <= 0xFFFFFF,
{
    lemma_scale_channel_bounds(b, a);
    lemma_scale_channel_bounds(r, a);
    lemma_scale_channel_bounds(g, a);
}

/// Brightness 0 turns every channel fully off.
pub proof fn lemma_scale_zero(c: u8)
    ensures
        scale_channel(c, 0) == 0,
{
}

/// Brightness 255 leaves every channel unscaled.
pub proof fn lemma_scale_full(c: u8)
    ensures
        scale_channel(c, 255) == c,
{
    assert((c * 255) / 255 == c) by (nonlinear_arith);
}

} // verus!
