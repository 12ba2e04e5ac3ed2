//! The block font: glyphs of 6×5 tiles for text in large letters.

pub mod data;

use crate::word::lemma_nibbles;
use data::glyph_byte;
use data::glyph_table;
use data::lemma_glyph_table_len;
use data::GLYPH_COUNT;
use vstd::prelude::*;

verus! {

/// The ranges of characters that have a glyph, each as its first and its
/// last character. The glyphs stand in the glyph table in this order.
pub const MAP_DATA: [u8; 8] = [
    0x20, 0x20, 0x30, 0x39, 0x41, 0x5a, 0x7b, 0x7f,
];

/// The character whose glyph stands in for every character that has none.
pub const PLACEHOLDER: u32 = 127;

/// The glyph of the character with the code `v`, looked for in the ranges
/// from the pair of bytes at `i` onwards, where `start` glyphs belong to the
/// ranges before: `None` if none of these ranges holds `v`.
pub open spec fn find_from(v: int, i: int, start: int) -> Option<int>
    decreases MAP_DATA@.len() - i,
{
    if i < 0 || i + 1 >= MAP_DATA@.len() {
        None
    } else {
        let min = MAP_DATA@[i] as int;
        let max = MAP_DATA@[i + 1] as int;
        if min <= v <= max {
            Some(v + start - min)
        } else {
            find_from(v, i + 2, start + (max - min) + 1)
        }
    }
}

/// The number of the glyph that a character is drawn with: its own if it
/// lies in one of the ranges, else that of the placeholder.
pub open spec fn glyph_index(v: int) -> int {
    match find_from(v, 0, 0) {
        Some(k) => k,
        None => match find_from(PLACEHOLDER as int, 0, 0) {
            Some(k) => k,
            None => 0,
        },
    }
}

/// Looks `v` up in the ranges. `None` where no range holds it.
fn find(v: usize) -> (found: Option<u8>)
    ensures
        found matches Some(k) ==> find_from(v as int, 0, 0) == Some(k as int) && k < GLYPH_COUNT,
        found is None ==> find_from(v as int, 0, 0) is None,
{
    let mut start: usize = 0;
    let mut i: usize = 0;
    while i + 1 < 8
        invariant
            i % 2 == 0,
            i <= 8,
            start <= 21 * i,
            i == 0 ==> start == 0,
            i == 2 ==> start == 1,
            i == 4 ==> start == 11,
            i == 6 ==> start == 37,
            i == 8 ==> start == 42,
            find_from(v as int, 0, 0) == find_from(v as int, i as int, start as int),
        decreases 8 - i,
    {
        let min = MAP_DATA[i] as usize;
        let max = MAP_DATA[i + 1] as usize;
        assert(min <= max);
        if v >= min && v <= max {
            return Some((v + start - min) as u8);
        }
        start += (max - min) + 1;
        i += 2;
    }
    None
}

/// The number of the glyph that `ch` is drawn with.
pub fn map_ascii_code(ch: char) -> (idx: u8)
    ensures
        idx == glyph_index(ch as int),
        idx < GLYPH_COUNT,
{
    match find(ch as usize) {
        Some(k) => k,
        None => {
            // The character has no glyph of its own. The placeholder has
            // one; were the table ever to lose it, the first glyph is used.
            match find(PLACEHOLDER as usize) {
                Some(k) => k,
                None => 0,
            }
        },
    }
}

/// Every character is drawn with a glyph of the table, and one that lies in
/// none of the ranges with the glyph of the placeholder, which is the last.
pub proof fn lemma_glyph_index_in_table(v: int)
    ensures
        0 <= glyph_index(v) < GLYPH_COUNT,
        find_from(v, 0, 0) is None <==> !(v == 0x20 || 0x30 <= v <= 0x39 || 0x41 <= v <= 0x5a || 0x7b
            <= v <= 0x7f),
        find_from(v, 0, 0) is None ==> glyph_index(v) == glyph_index(PLACEHOLDER as int),
        glyph_index(PLACEHOLDER as int) == 41,
{
    reveal_with_fuel(find_from, 6);
}

/// The tiles of one character: the fifteen bytes that the glyph table holds
/// for it.
#[derive(Clone, Copy, Debug)]
pub struct Glyph([u8; 15]);

impl View for Glyph {
    type V = Seq<u8>;

    closed spec fn view(&self) -> Seq<u8> {
        self.0@
    }
}

/// The fifteen bytes of the glyph `idx`.
pub open spec fn glyph_bytes(idx: int) -> Seq<u8> {
    glyph_table().subrange(15 * idx, 15 * idx + 15)
}

/// The number of the tile in column `tx` and row `ty` of a glyph.
pub open spec fn tile_index(bytes: Seq<u8>, tx: int, ty: int) -> u8
    recommends
        bytes.len() == 15,
        0 <= tx < 6,
        0 <= ty < 5,
{
    let b = bytes[ty * 3 + tx / 2];
    if tx % 2 == 0 {
        b % 16
    } else {
        b / 16
    }
}

impl Glyph {
    /// The glyph that `ch` is drawn with.
    pub fn get(ch: char) -> (g: Glyph)
        ensures
            g@ == glyph_bytes(glyph_index(ch as int)),
    {
        let idx = map_ascii_code(ch);
        Self::get_idx(idx)
    }

    /// The glyph with the number `idx`.
    pub fn get_idx(idx: u8) -> (g: Glyph)
        requires
            idx < GLYPH_COUNT,
        ensures
            g@ == glyph_bytes(idx as int),
    {
        let start = (idx as usize) * 15;
        let mut bytes = [0u8;15];
        let mut i: usize = 0;
        while i < 15
            invariant
                i <= 15,
                start == 15 * idx,
                idx < GLYPH_COUNT,
                forall|j: int| 0 <= j < i ==> bytes@[j] == glyph_table()[start + j],
            decreases 15 - i,
        {
            bytes[i] = glyph_byte(start + i);
            i += 1;
        }
        proof {
            lemma_glyph_table_len();
        }
        assert(bytes@ =~= glyph_bytes(idx as int));
        Glyph(bytes)
    }

    /// The number of the tile in column `tx` and row `ty`.
    pub fn get_tile_idx(self, tx: i32, ty: i32) -> (idx: u8)
        requires
            0 <= tx < 6,
            0 <= ty < 5,
        ensures
            idx == tile_index(self@, tx as int, ty as int),
            idx < 16,
    {
        let byte_offset = ((ty * 3) + (tx / 2)) as usize;
        let shift = ((tx % 2) * 4) as u8;
        let b = self.0[byte_offset];
        proof {
            lemma_nibbles(b);
        }
        (b >> shift) & 0xf
    }
}

} // verus!
