//! Dates and times in binary-coded decimal, as clock chips keep them.

use crate::word::lemma_nibbles;
use vstd::prelude::*;
use vstd::std_specs::convert::FromSpecImpl;

verus! {

/// A number between 0 and 99, in binary-coded decimal: the tens in the high
/// four bits, the units in the low four.
#[derive(Copy, Debug, Clone)]
pub struct BCD(u8);

impl View for BCD {
    type V = u8;

    closed spec fn view(&self) -> u8 {
        self.0
    }
}

/// The byte that holds `v` in binary-coded decimal. Of a number above 99 the
/// tens are kept modulo 16.
pub open spec fn bcd_of(v: u8) -> u8 {
    (((v / 10) % 16) * 16 + v % 10) as u8
}

/// The number that the byte `raw` holds in binary-coded decimal.
pub open spec fn bcd_value(raw: u8) -> int {
    (raw / 16) * 10 + raw % 16
}

impl BCD {
    /// The number with the raw byte `raw`.
    pub fn from_raw(raw: u8) -> (b: BCD)
        ensures
            b@ == raw,
    {
        BCD(raw)
    }

    /// The raw byte.
    pub fn raw(self) -> (raw: u8)
        ensures
            raw == self@,
    {
        self.0
    }

    pub fn tens(self) -> (t: i32)
        ensures
            t == self@ / 16,
    {
        let raw = self.0;
        proof {
            lemma_nibbles(raw);
        }
        (raw >> 4) as i32
    }

    pub fn units(self) -> (u: i32)
        ensures
            u == self@ % 16,
    {
        let raw = self.0;
        proof {
            lemma_nibbles(raw);
        }
        (raw & 0xf) as i32
    }

    /// The digit `idx`, the units being digit 0 and the tens digit 1.
    pub fn digit(self, idx: usize) -> (d: i32)
        requires
            idx < 2,
        ensures
            d == if idx == 0 {
                self@ % 16
            } else {
                self@ / 16
            },
    {
        let raw = self.0;
        proof {
            lemma_nibbles(raw);
        }
        let shift = (4 * idx) as u8;
        ((raw >> shift) & 0xf) as i32
    }

    /// The number as a plain integer.
    pub fn value(self) -> (v: u8)
        ensures
            v == bcd_value(self@),
    {
        let raw = self.0;
        proof {
            lemma_nibbles(raw);
        }
        (raw >> 4) * 10 + (raw & 0xf)
    }
}

impl core::convert::From<u8> for BCD {
    /// The number `v` in binary-coded decimal.
    fn from(v: u8) -> (b: BCD)
        ensures
            b@ == bcd_of(v),
    {
        let tens = v / 10;
        let units = v % 10;
        assert(units < 10 ==> ((tens << 4) | units) == ((tens % 16) * 16 + units)) by (bit_vector);
        BCD((tens << 4) | units)
    }
}

impl FromSpecImpl<u8> for BCD {
    open spec fn obeys_from_spec() -> bool {
        true
    }

    closed spec fn from_spec(v: u8) -> BCD {
        BCD(bcd_of(v))
    }
}

/// A number up to 99 comes back from its binary-coded decimal.
pub proof fn lemma_bcd_round_trip(v: u8)
    requires
        v <= 99,
    ensures
        bcd_value(bcd_of(v)) == v,
{
}

/// A date and time represented with BCD numbers.
#[derive(Copy, Debug, Clone)]
pub struct DateTime {
    pub second: BCD,
    pub minute: BCD,
    pub hour: BCD,
    /// The day of the week, Monday being 0.
    pub day: u8,
    pub date: BCD,
    pub month: BCD,
    pub year: BCD,
    pub hr24: bool,
}

/// Implemented by objects that can read `DateTime` values.
pub trait Read {
    type Error;

    /// Does this clock keep the record that the contract below speaks of? One
    /// that is verified does. One that is not leaves this as it is, and
    /// nothing is claimed of it.
    open spec fn keeps_record() -> bool {
        false
    }

    /// What every reading so far came to, oldest first.
    open spec fn readings(&self) -> Seq<Result<DateTime, Self::Error>> {
        Seq::empty()
    }

    /// Reads the time. Whether that succeeds is up to the clock.
    fn read(&mut self) -> (r: Result<DateTime, Self::Error>)
        ensures
            Self::keeps_record() ==> final(self).readings() == old(self).readings().push(r),
    ;
}

/// `after` is the clock `before` read once more, and `reading` is what that
/// reading came to.
pub open spec fn read_once<C: Read>(before: C, after: C, reading: Result<DateTime, C::Error>)
    -> bool {
    after.readings() == before.readings().push(reading)
}

/// Implemented by objects that can write `DateTime` values.
pub trait Write {
    type Error;

    fn write(&mut self, dt: &DateTime) -> Result<(), Self::Error>;
}

} // verus!
