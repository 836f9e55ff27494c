//! Voxel records: a type tag and a packed RGBA colour.

use vstd::prelude::*;

verus! {

/// Type tag of a cell that holds nothing.
pub const VOXEL_EMPTY: u32 = 0;

/// Type tag of a filled cell.
pub const VOXEL_SOLID: u32 = 1;

/// The 32-bit word that holds four 8-bit channels, red in the most
/// significant byte and alpha in the least significant one.
pub open spec fn packed_rgba(r: u8, g: u8, b: u8, a: u8) -> int {
    r as int * 0x100_0000 + g as int * 0x1_0000 + b as int * 0x100 + a as int
}

/// The red channel of a packed colour word.
pub open spec fn red_of(color: u32) -> int {
    color as int / 0x100_0000
}

/// The green channel of a packed colour word.
pub open spec fn green_of(color: u32) -> int {
    (color as int / 0x1_0000) % 0x100
}

/// The blue channel of a packed colour word.
pub open spec fn blue_of(color: u32) -> int {
    (color as int / 0x100) % 0x100
}

/// The alpha channel of a packed colour word.
pub open spec fn alpha_of(color: u32) -> int {
    color as int % 0x100
}

/// Unpacking a packed colour word gives back the four channels that went
/// into it.
pub proof fn lemma_unpack_packed(color: u32, r: u8, g: u8, b: u8, a: u8)
    requires
        color as int == packed_rgba(r, g, b, a),
    ensures
        red_of(color) == r,
        green_of(color) == g,
        blue_of(color) == b,
        alpha_of(color) == a,
{
}

/// One cell of the grid, laid out as two 32-bit words.
#[derive(Clone, Copy, Debug, PartialEq, Eq, Structural)]
pub struct Voxel {
    pub voxel_type: u32,
    pub color: u32,
}

impl Voxel {
    /// The empty voxel: tag and colour are both zero.
    pub fn empty() -> (v: Voxel)
        ensures
            v.voxel_type == VOXEL_EMPTY,
            v.color == 0,
    {
        Voxel { voxel_type: 0, color: 0 }
    }

    /// A voxel of the given type whose colour word packs the four channels.
    pub fn new(voxel_type: u32, r: u8, g: u8, b: u8, a: u8) -> (v: Voxel)
        ensures
            v.voxel_type == voxel_type,
            v.color as int == packed_rgba(r, g, b, a),
    {
        let packed_color: u32 = (r as u32) << 24 | (g as u32) << 16 | (b as u32) << 8 | (a as u32);
        assert(packed_color == (r as u32) * 0x100_0000 + (g as u32) * 0x1_0000 + (b as u32) * 0x100
            + (a as u32)) by (bit_vector)
            requires
                packed_color == (r as u32) << 24 | (g as u32) << 16 | (b as u32) << 8 | (a as u32),
        ;
        Voxel { voxel_type, color: packed_color }
    }

    /// The four channels of the colour word, in the order red, green, blue,
    /// alpha, each as the byte that was packed.
    pub fn unpack_color(&self) -> (c: [u8; 4])
        ensures
            c@.len() == 4,
            c@[0] as int == red_of(self.color),
            c@[1] as int == green_of(self.color),
            c@[2] as int == blue_of(self.color),
            c@[3] as int == alpha_of(self.color),
    {
        let color: u32 = self.color;
        let r: u32 = (color >> 24) & 0xFF;
        let g: u32 = (color >> 16) & 0xFF;
        let b: u32 = (color >> 8) & 0xFF;
        let a: u32 = color & 0xFF;
        assert(r == color / 0x100_0000 && g == (color / 0x1_0000) % 0x100 && b == (color / 0x100)
            % 0x100 && a == color % 0x100) by (bit_vector)
            requires
                r == (color >> 24) & 0xFF,
                g == (color >> 16) & 0xFF,
                b == (color >> 8) & 0xFF,
                a == color & 0xFF,
        ;
        [r as u8, g as u8, b as u8, a as u8]
    }
}

} // verus!
