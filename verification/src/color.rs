//! A fixed 4-byte pixel value in (red, green, blue, alpha) order.

use vstd::prelude::*;

verus! {

/// A pixel color, packed as 4 bytes in (R, G, B, A) order.
#[derive(Clone, Copy, Debug, PartialEq, Eq)]
pub struct Color {
    bytes: [u8; 4],
}

impl View for Color {
    type V = Seq<u8>;

    closed spec fn view(&self) -> Seq<u8> {
        self.bytes@
    }
}

impl Color {
    /// Builds a color from its packed 4-byte representation.
    pub fn from_bytes(bytes: &[u8]) -> (c: Color)
        requires
            bytes@.len() == 4,
        ensures
            c@ == bytes@,
    {
        let c = Color { bytes: [bytes[0], bytes[1], bytes[2], bytes[3]] };
        proof {
            assert(c@ =~= bytes@);
        }
        c
    }

    /// Builds a color from its four channels.
    pub fn from_rgba(r: u8, g: u8, b: u8, a: u8) -> (c: Color)
        ensures
            c@ == seq![r, g, b, a],
    {
        let c = Color { bytes: [r, g, b, a] };
        proof {
            assert(c@ =~= seq![r, g, b, a]);
        }
        c
    }

    /// Builds a fully opaque color from the three color channels.
    pub fn from_rgb(r: u8, g: u8, b: u8) -> (c: Color)
        ensures
            c@ == seq![r, g, b, 255u8],
    {
        Color::from_rgba(r, g, b, 255)
    }

    /// The packed 4-byte representation, as written into a pixel buffer.
    pub fn as_bytes(&self) -> (bytes: &[u8; 4])
        ensures
            bytes@ == self@,
    {
        &self.bytes
    }
}

/// Rebuilding a color from the byte representation of `Color::from_rgb(r, g, b)`
/// reproduces the channels `(r, g, b)` with a fully opaque alpha: the byte view
/// that `from_rgb` establishes is exactly what `as_bytes` hands out and what
/// `from_bytes` stores back.
pub proof fn lemma_rgb_roundtrip(original: Color, rebuilt: Color, r: u8, g: u8, b: u8)
    requires
        original@ == seq![r, g, b, 255u8],
        rebuilt@ == original@,
    ensures
        rebuilt@[0] == r,
        rebuilt@[1] == g,
        rebuilt@[2] == b,
        rebuilt@[3] == 255u8,
{
}

} // verus!
