//! The big-digit font: which of the seven segments of a digit are lit and
//! which of the six corners between neighbouring segments are rounded.

use crate::word::word;
use crate::word::word_of;
use vstd::prelude::*;

verus! {

/// Sixteen digits, two bytes each: the segments a to g in the low seven bits
/// of the first byte, the corners ab, bc, cd, de, ef, fa in the low six bits
/// of the second.
pub const DIGIT_DATA: [u8; 32] = [
    0x3f, 0x2d, 0x06, 0x00, 0x5b, 0x09, 0x4f, 0x07,
    0x66, 0x00, 0x6d, 0x24, 0x7d, 0x2c, 0x07, 0x01,
    0x7f, 0x3f, 0x6f, 0x25, 0x77, 0x21, 0x7c, 0x0c,
    0x39, 0x28, 0x5e, 0x0c, 0x79, 0x00, 0x71, 0x00,
];

/// The segment a, the bar at the top. The others follow clockwise.
pub const A: u16 = 0x0001;

/// The segment b, the upper bar on the right.
pub const B: u16 = 0x0002;

/// The segment c, the lower bar on the right.
pub const C: u16 = 0x0004;

/// The segment d, the bar at the bottom.
pub const D: u16 = 0x0008;

/// The segment e, the lower bar on the left.
pub const E: u16 = 0x0010;

/// The segment f, the upper bar on the left.
pub const F: u16 = 0x0020;

/// The segment g, the bar in the middle.
pub const G: u16 = 0x0040;

/// The corner at the top right, between a and b, is rounded.
pub const AB: u16 = 0x0100;

/// The joint in the middle of the right side, between b and c, is rounded.
pub const BC: u16 = 0x0200;

/// The corner at the bottom right, between c and d, is rounded.
pub const CD: u16 = 0x0400;

/// The corner at the bottom left, between d and e, is rounded.
pub const DE: u16 = 0x0800;

/// The joint in the middle of the left side, between e and f, is rounded.
pub const EF: u16 = 0x1000;

/// The corner at the top left, between f and a, is rounded.
pub const FA: u16 = 0x2000;

/// Every bit that stands for a segment.
pub const SEGMENTS: u16 = 0x007f;

/// Every bit that stands for a corner.
pub const CURVES: u16 = 0x3f00;

/// The table entry for the hexadecimal digit `v`.
pub open spec fn digit_entry(v: int) -> u16
    recommends
        0 <= v < 16,
{
    word_of(DIGIT_DATA@[2 * v], DIGIT_DATA@[2 * v + 1])
}

/// The hexadecimal value that a character stands for: `'0'` to `'9'` and
/// `'a'` to `'f'` for themselves, every other character for zero.
pub open spec fn hex_value(ch: char) -> u8 {
    if '0' <= ch <= '9' {
        (ch as u32 - '0' as u32) as u8
    } else if 'a' <= ch <= 'f' {
        (ch as u32 - 'a' as u32 + 10) as u8
    } else {
        0
    }
}

/// The hexadecimal value that `ch` stands for.
pub fn map_ascii_code(ch: char) -> (v: u8)
    ensures
        v == hex_value(ch),
        v < 16,
{
    if ch >= '0' && ch <= '9' {
        (ch as u8) - ('0' as u8)
    } else if ch >= 'a' && ch <= 'f' {
        (ch as u8) - ('a' as u8) + 10
    } else {
        0
    }
}

/// Is any bit of `mask` set in the digit `shape`?
pub open spec fn lit(shape: u16, mask: u16) -> bool {
    shape & mask != 0
}

/// The shape of one big digit.
#[derive(Clone, Copy, Debug)]
pub struct Digit(u16);

impl View for Digit {
    type V = u16;

    closed spec fn view(&self) -> u16 {
        self.0
    }
}

impl Digit {
    /// The digit that `Digit::get` gives for `v`.
    pub open spec fn of(v: u8) -> u16 {
        digit_entry(v as int % 16)
    }

    /// The shape of the hexadecimal digit in the low four bits of `v`.
    pub fn get(v: u8) -> (d: Digit)
        ensures
            d@ == Digit::of(v),
    {
        let nv = v as usize & 0xf;
        assert(v as usize & 0xf == v as usize % 16) by (bit_vector);
        Self(word(DIGIT_DATA[2 * nv], DIGIT_DATA[2 * nv + 1]))
    }

    pub fn get_ascii(ch: char) -> (d: Digit)
        ensures
            d@ == Digit::of(hex_value(ch)),
    {
        Self::get(map_ascii_code(ch))
    }

    pub fn get_raw(raw: u16) -> (d: Digit)
        ensures
            d@ == raw,
    {
        Self(raw)
    }

    /// The sixteen bits this digit is made of.
    pub fn raw(self) -> (raw: u16)
        ensures
            raw == self@,
    {
        self.0
    }

    pub fn draw_a(self) -> (on: bool)
        ensures
            on == lit(self@, A),
    {
        self.0 & A != 0
    }

    pub fn draw_b(self) -> (on: bool)
        ensures
            on == lit(self@, B),
    {
        self.0 & B != 0
    }

    pub fn draw_c(self) -> (on: bool)
        ensures
            on == lit(self@, C),
    {
        self.0 & C != 0
    }

    pub fn draw_d(self) -> (on: bool)
        ensures
            on == lit(self@, D),
    {
        self.0 & D != 0
    }

    pub fn draw_e(self) -> (on: bool)
        ensures
            on == lit(self@, E),
    {
        self.0 & E != 0
    }

    pub fn draw_f(self) -> (on: bool)
        ensures
            on == lit(self@, F),
    {
        self.0 & F != 0
    }

    pub fn draw_g(self) -> (on: bool)
        ensures
            on == lit(self@, G),
    {
        self.0 & G != 0
    }

    pub fn curve_ab(self) -> (round: bool)
        ensures
            round == lit(self@, AB),
    {
        self.0 & AB != 0
    }

    pub fn curve_bc(self) -> (round: bool)
        ensures
            round == lit(self@, BC),
    {
        self.0 & BC != 0
    }

    pub fn curve_cd(self) -> (round: bool)
        ensures
            round == lit(self@, CD),
    {
        self.0 & CD != 0
    }

    pub fn curve_de(self) -> (round: bool)
        ensures
            round == lit(self@, DE),
    {
        self.0 & DE != 0
    }

    pub fn curve_ef(self) -> (round: bool)
        ensures
            round == lit(self@, EF),
    {
        self.0 & EF != 0
    }

    pub fn curve_fa(self) -> (round: bool)
        ensures
            round == lit(self@, FA),
    {
        self.0 & FA != 0
    }

    /// Is this the digit one as the table draws it: the segments b and c and
    /// nothing else?
    pub fn is_one(self) -> (one: bool)
        ensures
            one == (self@ == B | C),
    {
        self.0 == B | C
    }
}

/// Every digit of the table uses the fourteen segment and corner bits only,
/// so that taking these bits out of it gives the digit back; a value and
/// the value of its low four bits give the same digit.
pub proof fn lemma_digit_decode_stable(v: u8)
    ensures
        Digit::of(v) & !(SEGMENTS | CURVES) == 0,
        Digit::of(v) & (SEGMENTS | CURVES) == Digit::of(v),
        Digit::of(v) == Digit::of(v % 16),
{
    let k = v as int % 16;
    let lo = DIGIT_DATA@[2 * k];
    let hi = DIGIT_DATA@[2 * k + 1];
    assert(lo < 0x80 && hi < 0x40);
    let w = Digit::of(v);
    assert(w == lo + 256 * hi);
    assert(w < 0x4000 && w % 256 < 0x80);
    assert(w < 0x4000 && w % 256 < 0x80 ==> w & !(0x007fu16 | 0x3f00u16) == 0 && w & (0x007fu16
        | 0x3f00u16) == w) by (bit_vector);
}

/// The digit one lights the segments b and c, rounds no corner, and is the
/// only digit of the table that `is_one` accepts.
pub proof fn lemma_one_is_plain()
    ensures
        Digit::of(1) == B | C,
        Digit::of(1) & CURVES == 0,
        forall|v: u8| v % 16 != 1 ==> Digit::of(v) != B | C,
{
    assert(0x0002u16 | 0x0004u16 == 0x0006 && 0x0006u16 & 0x3f00u16 == 0) by (bit_vector);
    assert forall|v: u8| v % 16 != 1 implies Digit::of(v) != B | C by {
        let k = v as int % 16;
        let lo = DIGIT_DATA@[2 * k];
        let hi = DIGIT_DATA@[2 * k + 1];
        assert(lo != 6 || hi != 0);
    }
}

} // verus!
