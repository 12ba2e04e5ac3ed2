//! The clock of the machine that the program runs on, for trying the clock
//! face out without the clock chip.

use crate::bcdtime::DateTime;
use crate::bcdtime::Read;
use crate::bcdtime::Write;
use crate::bcdtime::BCD;
use chrono::Datelike;
use chrono::Timelike;
use vstd::prelude::*;

verus! {

/// A date and time of the calendar in plain numbers.
#[derive(Clone, Copy, Debug)]
pub struct Calendar {
    pub second: u32,
    pub minute: u32,
    pub hour: u32,
    /// The day of the week, Monday being 0.
    pub weekday: u32,
    /// The day of the month, the first being 1.
    pub day: u32,
    /// The month, January being 1.
    pub month: u32,
    pub year: i32,
}

/// Are the fields within the bounds of the calendar?
pub open spec fn calendar_in_range(c: Calendar) -> bool {
    &&& c.second <= 59
    &&& c.minute <= 59
    &&& c.hour <= 23
    &&& c.weekday <= 6
    &&& 1 <= c.day <= 31
    &&& 1 <= c.month <= 12
}

/// The local time of this machine, from `chrono::Local::now`, taken apart
/// with the methods `second`, `minute` and `hour` of `chrono::Timelike` and
/// `day`, `month`, `year` and `weekday` of `chrono::Datelike`, the weekday
/// counted with `chrono::Weekday::num_days_from_monday`.
///
/// Nothing is proved of this. What is claimed are the ranges that chrono
/// documents for these methods. Which time comes back depends on when the
/// call is made; `chrono` stops the program if the machine's clock is set
/// before 1970.
#[verifier::external_body]
fn local_calendar() -> (c: Calendar)
    ensures
        calendar_in_range(c),
{
    let now = chrono::Local::now();
    Calendar {
        second: now.second(),
        minute: now.minute(),
        hour: now.hour(),
        weekday: now.weekday().num_days_from_monday(),
        day: now.day(),
        month: now.month(),
        year: now.year(),
    }
}

/// The time `c` as the clock face takes it: every field in binary-coded
/// decimal, the year counted from 2000, in 24-hour mode. Of a field that
/// does not fit in a byte the low eight bits are taken.
pub fn from_calendar(c: &Calendar) -> (t: DateTime)
    ensures
        t.second@ == crate::bcdtime::bcd_of(c.second as u8),
        t.minute@ == crate::bcdtime::bcd_of(c.minute as u8),
        t.hour@ == crate::bcdtime::bcd_of(c.hour as u8),
        t.day == c.weekday as u8,
        t.date@ == crate::bcdtime::bcd_of(c.day as u8),
        t.month@ == crate::bcdtime::bcd_of(c.month as u8),
        t.year@ == crate::bcdtime::bcd_of((c.year - 2000) as u8),
        t.hr24,
{
    DateTime {
        second: BCD::from(#[verifier::truncate] (c.second as u8)),
        minute: BCD::from(#[verifier::truncate] (c.minute as u8)),
        hour: BCD::from(#[verifier::truncate] (c.hour as u8)),
        day: #[verifier::truncate] (c.weekday as u8),
        date: BCD::from(#[verifier::truncate] (c.day as u8)),
        month: BCD::from(#[verifier::truncate] (c.month as u8)),
        year: BCD::from(#[verifier::truncate] ((c.year as i64 - 2000) as u8)),
        hr24: true,
    }
}

/// The clock of this machine.
pub struct SystemClock();

impl Read for SystemClock {
    type Error = core::convert::Infallible;

    /// The local time at the moment of the call.
    fn read(&mut self) -> (r: Result<DateTime, core::convert::Infallible>)
        ensures
            r is Ok,
            r->Ok_0.hr24,
            r->Ok_0.day < 7,
    {
        let c = local_calendar();
        Ok(from_calendar(&c))
    }
}

impl Write for SystemClock {
    type Error = core::convert::Infallible;

    /// Does nothing: the clock of the machine is not there to be set.
    fn write(&mut self, _dt: &DateTime) -> (r: Result<(), core::convert::Infallible>)
        ensures
            r is Ok,
    {
        Ok(())
    }
}

} // verus!
