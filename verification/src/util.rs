//! Eight-bit RGB colours and their 24-bit keys.

use vstd::prelude::*;

verus! {

/// An RGB colour with eight bits per channel.
#[derive(Clone, Copy, Debug, PartialEq, Eq, Structural)]
pub struct Colour {
    pub r: u8,
    pub g: u8,
    pub b: u8,
}

/// The 24-bit key of a colour: red in the high byte, blue in the low byte.
pub open spec fn colour_key(c: Colour) -> int {
    c.r as int * 65536 + c.g as int * 256 + c.b as int
}

/// The colour whose 24-bit key is `key`.
pub open spec fn colour_of_key(key: int) -> Colour {
    Colour { r: (key / 65536) as u8, g: (key / 256 % 256) as u8, b: (key % 256) as u8 }
}

/// A key is a 24-bit number, and decoding it gives the colour back.
pub proof fn lemma_key_round_trip(c: Colour)
    ensures
        0 <= colour_key(c) < 0x100_0000,
        colour_of_key(colour_key(c)) == c,
{
}

impl Colour {
    /// The colour with the given 24-bit key.
    pub fn from_key(key: u32) -> (c: Colour)
        requires
            key < 0x100_0000,
        ensures
            c == colour_of_key(key as int),
            colour_key(c) == key,
    {
        Colour { r: (key / 65536) as u8, g: (key / 256 % 256) as u8, b: (key % 256) as u8 }
    }

    /// Reads a colour from the first three bytes of `slice`, in the order
    /// red, green, blue.
    pub fn from_slice(slice: &[u8]) -> (c: Colour)
        requires
            slice@.len() >= 3,
        ensures
            c.r == slice@[0],
            c.g == slice@[1],
            c.b == slice@[2],
    {
        Colour { r: slice[0], g: slice[1], b: slice[2] }
    }

    /// The colour's 24-bit key, `(r << 16) | (g << 8) | b`.
    pub fn as_usize(&self) -> (key: usize)
        ensures
            key as int == colour_key(*self),
            key < 0x100_0000,
    {
        let r: u32 = self.r as u32;
        let g: u32 = self.g as u32;
        let b: u32 = self.b as u32;
        let key: u32 = r << 16 | g << 8 | b;
        assert(key == r * 65536 + g * 256 + b) by (bit_vector)
            requires
                key == r << 16 | g << 8 | b,
                r < 256,
                g < 256,
                b < 256,
        ;
        key as usize
    }
}

} // verus!
