//! The glyph table of the block font.

use vstd::prelude::*;

verus! {

/// The glyphs, fifteen bytes each: five rows of three bytes, the tile of an
/// even column in the low four bits of a byte and the tile of the column
/// after it in the high four.
const GLYPH_DATA: [u8; 630] = [
    0x00, 0x00, 0x00, 0x00, 0x00, 0x00, 0x00, 0x00, 0x00, 0x00, 0x00, 0x00,
    0x00, 0x00, 0x00, 0xf0, 0xff, 0x00, 0x0f, 0x00, 0x0f, 0x0f, 0x00, 0x0f,
    0x0f, 0x00, 0x0f, 0xf0, 0xff, 0x00, 0x00, 0x0f, 0x00, 0xf0, 0x0f, 0x00,
    0x00, 0x0f, 0x00, 0x00, 0x0f, 0x00, 0xf0, 0xff, 0x00, 0xff, 0xff, 0x00,
    0x00, 0x00, 0x0f, 0xf0, 0xff, 0x00, 0x0f, 0x00, 0x00, 0xf5, 0xff, 0x0f,
    0xff, 0xff, 0x00, 0x00, 0x00, 0x0f, 0xf0, 0xff, 0x00, 0x00, 0x00, 0x0f,
    0xff, 0xff, 0x00, 0x0f, 0xf0, 0x00, 0x0f, 0xf0, 0x00, 0xf5, 0xff, 0x0f,
    0x00, 0xf0, 0x00, 0x00, 0xf0, 0x00, 0xfa, 0xff, 0x0f, 0x0f, 0x00, 0x00,
    0xf5, 0xff, 0x00, 0x00, 0x00, 0x0f, 0xff, 0xff, 0x00, 0xf0, 0xff, 0x00,
    0x0f, 0x00, 0x00, 0xff, 0xff, 0x00, 0x0f, 0x00, 0x0f, 0xf0, 0xff, 0x00,
    0xff, 0xff, 0x0c, 0x00, 0x00, 0x0f, 0x00, 0xf0, 0x00, 0x00, 0x0f, 0x00,
    0x00, 0x0f, 0x00, 0xf0, 0xff, 0x00, 0x0f, 0x00, 0x0f, 0xf0, 0xff, 0x00,
    0x0f, 0x00, 0x0f, 0xf0, 0xff, 0x00, 0xf0, 0xff, 0x00, 0x0f, 0x00, 0x0f,
    0xf0, 0xff, 0x0f, 0x00, 0x00, 0x0f, 0xf0, 0xff, 0x00, 0xf0, 0xff, 0x00,
    0x0f, 0x00, 0x0f, 0xff, 0xff, 0x0f, 0x0f, 0x00, 0x0f, 0x0f, 0x00, 0x0f,
    0xfa, 0xff, 0x00, 0x0f, 0x00, 0x0f, 0xff, 0xff, 0x00, 0x0f, 0x00, 0x0f,
    0xf5, 0xff, 0x00, 0xf0, 0xff, 0x0f, 0x0f, 0x00, 0x00, 0x0f, 0x00, 0x00,
    0x0f, 0x00, 0x00, 0xf0, 0xff, 0x0f, 0xfa, 0xff, 0x00, 0x0f, 0x00, 0x0f,
    0x0f, 0x00, 0x0f, 0x0f, 0x00, 0x0f, 0xf5, 0xff, 0x00, 0xfa, 0xff, 0x0f,
    0x0f, 0x00, 0x00, 0xff, 0xff, 0x00, 0x0f, 0x00, 0x00, 0xf5, 0xff, 0x0f,
    0xfa, 0xff, 0x0f, 0x0f, 0x00, 0x00, 0xff, 0xff, 0x00, 0x0f, 0x00, 0x00,
    0x0f, 0x00, 0x00, 0xf0, 0xff, 0x0f, 0x0f, 0x00, 0x00, 0x0f, 0xf0, 0x0c,
    0x0f, 0x00, 0x0f, 0xf0, 0xff, 0x08, 0x0f, 0x00, 0x0f, 0x0f, 0x00, 0x0f,
    0xff, 0xff, 0x0f, 0x0f, 0x00, 0x0f, 0x0f, 0x00, 0x0f, 0xf0, 0xff, 0x00,
    0x00, 0x0f, 0x00, 0x00, 0x0f, 0x00, 0x00, 0x0f, 0x00, 0xf0, 0xff, 0x00,
    0x00, 0xff, 0x0f, 0x00, 0xf0, 0x00, 0x00, 0xf0, 0x00, 0x0f, 0xf0, 0x00,
    0xf0, 0x0f, 0x00, 0x0f, 0x00, 0x0f, 0x0f, 0xf0, 0x00, 0xff, 0x0f, 0x00,
    0x0f, 0xf0, 0x00, 0x0f, 0x00, 0x0f, 0x0f, 0x00, 0x00, 0x0f, 0x00, 0x00,
    0x0f, 0x00, 0x00, 0x0f, 0x00, 0x00, 0xf5, 0xff, 0x0f, 0x0f, 0x00, 0x0f,
    0xff, 0xf0, 0x0f, 0x0f, 0x0f, 0x0f, 0x0f, 0x00, 0x0f, 0x0f, 0x00, 0x0f,
    0x0f, 0x00, 0x0f, 0xff, 0x00, 0x0f, 0x0f, 0x0f, 0x0f, 0x0f, 0xf0, 0x0f,
    0x0f, 0x00, 0x0f, 0xf0, 0xff, 0x00, 0x0f, 0x00, 0x0f, 0x0f, 0x00, 0x0f,
    0x0f, 0x00, 0x0f, 0xf0, 0xff, 0x00, 0xfa, 0xff, 0x00, 0x0f, 0x00, 0x0f,
    0xff, 0xff, 0x00, 0x0f, 0x00, 0x00, 0x0f, 0x00, 0x00, 0xf0, 0xff, 0x00,
    0x0f, 0x00, 0x0f, 0x0f, 0x0f, 0x0f, 0x0f, 0xf0, 0x00, 0xf0, 0x0f, 0x0f,
    0xfa, 0xff, 0x00, 0x0f, 0x00, 0x0f, 0xff, 0xcf, 0x00, 0x0f, 0xf0, 0x00,
    0x0f, 0x00, 0x0f, 0xf0, 0xff, 0x0f, 0x0f, 0x00, 0x00, 0xf0, 0xff, 0x00,
    0x00, 0x00, 0x0f, 0xff, 0xff, 0x00, 0xff, 0xff, 0x0f, 0x00, 0x0f, 0x00,
    0x00, 0x0f, 0x00, 0x00, 0x0f, 0x00, 0x00, 0x0f, 0x00, 0x0f, 0x00, 0x0f,
    0x0f, 0x00, 0x0f, 0x0f, 0x00, 0x0f, 0x0f, 0x00, 0x0f, 0xf0, 0xff, 0x00,
    0x0f, 0x00, 0x0f, 0x0f, 0x00, 0x0f, 0x0f, 0x00, 0x0f, 0xf0, 0xf0, 0x00,
    0x00, 0x0f, 0x00, 0x0f, 0x00, 0x0f, 0x0f, 0x00, 0x0f, 0x0f, 0x0f, 0x0f,
    0xff, 0xf0, 0x0f, 0x0f, 0x00, 0x0f, 0x0f, 0x00, 0x0f, 0xf0, 0xf0, 0x00,
    0x00, 0x0f, 0x00, 0xf0, 0xf0, 0x00, 0x0f, 0x00, 0x0f, 0x0f, 0x00, 0x0f,
    0xf0, 0xf0, 0x00, 0x00, 0x0f, 0x00, 0x00, 0x0f, 0x00, 0x00, 0x0f, 0x00,
    0xff, 0xff, 0x0f, 0x00, 0xf0, 0x00, 0x00, 0x0f, 0x00, 0xf0, 0x00, 0x00,
    0xff, 0xff, 0x0f, 0xff, 0xcf, 0xf0, 0xf0, 0xf0, 0xf0, 0xf0, 0xf0, 0xff,
    0xf0, 0xf0, 0xf0, 0xf0, 0xf0, 0xf0, 0xf0, 0xff, 0x0f, 0x0f, 0xf0, 0x00,
    0xf0, 0xf0, 0x00, 0x00, 0xff, 0x00, 0xff, 0xf0, 0x00, 0x0f, 0xfa, 0x0f,
    0xff, 0xff, 0xf0, 0xff, 0xff, 0xf0, 0x0f, 0xff, 0xf0, 0x0f, 0xf5, 0x0f,
    0xfa, 0xf0, 0x00, 0x0f, 0xff, 0x00, 0xff, 0xf0, 0x0c, 0x0f, 0xfa, 0x08,
    0x0f, 0x85, 0x00, 0xfa, 0xff, 0x0c, 0x0f, 0x00, 0x0f, 0x0f, 0x00, 0x0f,
    0x0f, 0x00, 0x0f, 0xf5, 0xff, 0x08,
];

/// How many glyphs the glyph table holds.
pub const GLYPH_COUNT: usize = 42;

/// The bytes of one glyph.
pub const GLYPH_BYTES: usize = 15;

/// The bytes of the glyph table.
pub closed spec fn glyph_table() -> Seq<u8> {
    GLYPH_DATA@
}

/// The table holds `GLYPH_COUNT` glyphs of `GLYPH_BYTES` bytes.
pub proof fn lemma_glyph_table_len()
    ensures
        glyph_table().len() == GLYPH_COUNT * GLYPH_BYTES,
{
}

/// The byte `i` of the glyph table.
pub fn glyph_byte(i: usize) -> (b: u8)
    requires
        i < GLYPH_COUNT * GLYPH_BYTES,
    ensures
        b == glyph_table()[i as int],
{
    GLYPH_DATA[i]
}

} // verus!
