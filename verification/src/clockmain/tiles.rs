//! The 4×4 pixel block and the table of ready-made decorative blocks.

use crate::word::word;
use crate::word::word_of;
use vstd::prelude::*;

verus! {

/// Sixteen ready-made blocks, two bytes each, low byte first.
///
/// Block 0 is empty and block 15 filled. The blocks 10, 12, 8 and 5 are
/// filled but for a rounded corner at the top left, top right, bottom right
/// and bottom left. The blocks 2, 1, 3 and 6 are their complements, the
/// fillets that round off an inner corner. The blocks 4, 7, 9 and 11 are the
/// left, right, upper and lower half, block 13 is a checker board and block
/// 14 a dot.
pub const TILE_DATA: [u8; 32] = [
    0x00, 0x00, 0x13, 0x00, 0x8c, 0x00, 0x00, 0x31,
    0xcc, 0xcc, 0xff, 0x37, 0x00, 0xc8, 0x33, 0x33,
    0xff, 0xce, 0xff, 0x00, 0x73, 0xff, 0x00, 0xff,
    0xec, 0xff, 0xa5, 0xa5, 0x60, 0x06, 0xff, 0xff,
];

/// The pattern with every pixel lit.
pub const FILLED: u16 = 0xffff;

/// The pattern with no pixel lit.
pub const EMPTY: u16 = 0x0000;

/// How many ready-made blocks the table holds.
pub const TILE_COUNT: usize = 16;

/// The pattern of the ready-made block `idx`.
pub open spec fn prerendered(idx: int) -> u16
    recommends
        0 <= idx < TILE_COUNT,
{
    word_of(TILE_DATA@[2 * idx], TILE_DATA@[2 * idx + 1])
}

/// A 4×4 block of one-bit pixels: four bits per row, the top row in the
/// lowest bits.
#[derive(Clone, Copy, Debug)]
pub struct Tile(u16);

impl View for Tile {
    type V = u16;

    closed spec fn view(&self) -> u16 {
        self.0
    }
}

impl Tile {
    /// The block with every pixel lit.
    pub fn filled() -> (t: Tile)
        ensures
            t@ == FILLED,
    {
        Tile(FILLED)
    }

    /// The block with no pixel lit.
    pub fn empty() -> (t: Tile)
        ensures
            t@ == EMPTY,
    {
        Tile(EMPTY)
    }

    /// The ready-made block `idx` of the table.
    pub fn get_by_index(idx: usize) -> (t: Tile)
        requires
            idx < TILE_COUNT,
        ensures
            t@ == prerendered(idx as int),
    {
        let raw = word(TILE_DATA[idx * 2], TILE_DATA[idx * 2 + 1]);
        Self::get_raw(raw)
    }

    /// All ready-made blocks, in table order.
    pub fn get_all_prerendered() -> (all: [Tile; 16])
        ensures
            forall|i: int| 0 <= i < 16 ==> (#[trigger] all@[i])@ == prerendered(i),
    {
        let mut ret = [Tile(0);16];
        let mut i: usize = 0;
        while i < 16
            invariant
                i <= 16,
                forall|j: int| 0 <= j < i ==> (#[trigger] ret@[j])@ == prerendered(j),
            decreases 16 - i,
        {
            ret[i] = Self::get_by_index(i);
            i += 1;
        }
        ret
    }

    pub fn get_raw(raw: u16) -> (t: Tile)
        ensures
            t@ == raw,
    {
        Self(raw)
    }

    pub fn bits(self) -> (raw: u16)
        ensures
            raw == self@,
    {
        self.0
    }

    /// The block with every pixel turned over.
    pub fn invert(self) -> (t: Tile)
        ensures
            t@ == !self@,
    {
        Self(!self.0)
    }
}

impl crate::graphics::Tile for Tile {
    open spec fn states_pixels() -> bool {
        true
    }

    open spec fn pixels(&self) -> u16 {
        self@
    }

    fn raw_pixel_data(&self) -> (raw: u16) {
        self.0
    }
}

} // verus!
