//! The clock face: tiles, fonts and the routines that draw with them, and
//! the application that shows the time.

pub mod blockfont;
pub mod digitfont;
pub mod gfx;
pub mod minifont;
pub mod tiles;

use crate::bcdtime::read_once;
use crate::bcdtime::DateTime;
use crate::bcdtime::Read;
use crate::bcdtime::Write;
use crate::graphics::vector::Vector;
use crate::graphics::Display;
use crate::graphics::Request;
use crate::record::carried_out;
use crate::record::failure_of;
use crate::record::lemma_carried_out_cut;
use crate::record::lemma_carried_out_one;
use crate::record::lemma_carried_out_then;
use digitfont::Digit;
use gfx::big_digit;
use gfx::block_char;
use gfx::block_text;
use gfx::colon;
use gfx::tile_requests;
use gfx::only_if;
use gfx::Placement;
use vstd::prelude::*;

verus! {

/// The names of the days of the week, three letters each, Monday first.
pub const WEEKDAY: [u8; 21] = [
    0x4d, 0x4f, 0x4e, 0x54, 0x55, 0x45, 0x57, 0x45, 0x44, 0x54, 0x48, 0x55,
    0x46, 0x52, 0x49, 0x53, 0x41, 0x54, 0x53, 0x55, 0x4e,
];

/// The ligature for "th".
pub const TH: u8 = 0x7b;

/// The ligature for "st".
pub const ST: u8 = 0x7c;

/// The ligature for "nd".
pub const ND: u8 = 0x7d;

/// The ligature for "rd".
pub const RD: u8 = 0x7e;

/// The name of the day `day` of the week.
pub open spec fn weekday_name(day: int) -> Seq<u8>
    recommends
        0 <= day < 7,
{
    WEEKDAY@.subrange(3 * day, 3 * day + 3)
}

/// The ligature that turns the day of the month into an ordinal: "st", "nd"
/// and "rd" after the units 1, 2 and 3, but "th" after all others and from
/// the 10th to the 19th.
pub open spec fn ordinal(tens: int, units: int) -> u8 {
    if tens == 1 {
        TH
    } else if units == 1 {
        ST
    } else if units == 2 {
        ND
    } else if units == 3 {
        RD
    } else {
        TH
    }
}

/// How many tiles wide a ligature is.
pub open spec fn ordinal_width(ligature: u8) -> int {
    if ligature == TH || ligature == ND {
        6
    } else {
        5
    }
}

/// The tiles of the clock face for the time `t`: the hours and the minutes
/// in big digits with the colon between them where `colon` holds, to their
/// right the day of the week and below it, set against the right edge, the
/// day of the month as an ordinal.
pub open spec fn face(t: DateTime, colon_on: bool) -> Seq<Placement> {
    let tens = t.date@ as int / 16;
    let units = t.date@ as int % 16;
    let ligature = ordinal(tens, units);
    let wid = ordinal_width(ligature);
    big_digit(Digit::of(t.hour@ / 16), Vector(0, 0)) + big_digit(
        Digit::of(t.hour@ % 16),
        Vector(10, 0),
    ) + big_digit(Digit::of(t.minute@ / 16), Vector(24, 0)) + big_digit(
        Digit::of(t.minute@ % 16),
        Vector(34, 0),
    ) + only_if(colon_on, colon(Vector(20, 0))) + block_text(weekday_name(t.day as int), Vector(47, 5))
        + block_char((0x30 + tens) as u8, Vector((64 - wid - 12) as i32, 11)) + block_char(
        (0x30 + units) as u8,
        Vector((64 - wid - 6) as i32, 11),
    ) + block_char(ligature, Vector((64 - wid) as i32, 11))
}

/// Everything that drawing one frame asks of the display: a blank frame,
/// the tiles of the face, and the flip that shows them.
pub open spec fn frame(t: DateTime, colon_on: bool) -> Seq<Request> {
    seq![Request::Clear] + tile_requests(face(t, colon_on)) + seq![Request::Flip]
}

/// The tiles of the clock face for the time `t`.
pub fn face_tiles(t: &DateTime, colon_on: bool) -> (tiles: Vec<Placement>)
    requires
        t.day < 7,
    ensures
        tiles@ == face(*t, colon_on),
{
    let mut out = gfx::big_digit_tiles(Digit::get(t.hour.tens() as u8), Vector(0, 0));
    let mut more = gfx::big_digit_tiles(Digit::get(t.hour.units() as u8), Vector(10, 0));
    out.append(&mut more);
    let mut more = gfx::big_digit_tiles(Digit::get(t.minute.tens() as u8), Vector(24, 0));
    out.append(&mut more);
    let mut more = gfx::big_digit_tiles(Digit::get(t.minute.units() as u8), Vector(34, 0));
    out.append(&mut more);
    if colon_on {
        let mut more = gfx::colon_tiles(Vector(20, 0));
        out.append(&mut more);
    }
    let weekday = t.day as usize;
    let name = [WEEKDAY[3 * weekday], WEEKDAY[3 * weekday + 1], WEEKDAY[3 * weekday + 2]];
    assert(name@ =~= weekday_name(t.day as int));
    let mut more = gfx::block_text_tiles(name.as_slice(), Vector(47, 5));
    out.append(&mut more);

    let units = t.date.units();
    let tens = t.date.tens();
    let ordinal_lig: u8 = if tens == 1 {
        TH
    } else if units == 1 {
        ST
    } else if units == 2 {
        ND
    } else if units == 3 {
        RD
    } else {
        TH
    };
    let ordinal_lig_wid: i32 = if ordinal_lig == TH || ordinal_lig == ND {
        6
    } else {
        5
    };
    let mut more = gfx::block_char_tiles(
        0x30 + tens as u8,
        Vector(64 - ordinal_lig_wid - 12, 11),
    );
    out.append(&mut more);
    let mut more = gfx::block_char_tiles(
        0x30 + units as u8,
        Vector(64 - ordinal_lig_wid - 6, 11),
    );
    out.append(&mut more);
    let mut more = gfx::block_char_tiles(ordinal_lig, Vector(64 - ordinal_lig_wid, 11));
    out.append(&mut more);
    assert(out@ =~= face(*t, colon_on));
    out
}

/// What has happened since the application last looked.
#[derive(Clone, Copy, Debug, PartialEq, Eq, Structural)]
pub struct Events {
    /// Half a second has passed.
    pub tick: bool,
}

impl Events {
    /// Forgets all events.
    pub fn reset(&mut self)
        ensures
            *final(self) == (Events { tick: false }),
    {
        *self = Self::default();
    }

    /// Is there any event?
    pub fn has_pending(&self) -> (pending: bool)
        ensures
            pending == self.tick,
    {
        *self != Self::default()
    }
}

impl core::default::Default for Events {
    fn default() -> (e: Events)
        ensures
            e == (Events { tick: false }),
    {
        Self { tick: false }
    }
}

/// The clock: it keeps the time it last read and whether the colon shows.
pub struct App<Clock, Disp> where Clock: Read + Write, Disp: Display {
    clock: Clock,
    display: Disp,
    colon: bool,
    datetime: DateTime,
}

impl<Clock, Disp> App<Clock, Disp> where Clock: Read + Write, Disp: Display {
    /// The display that the clock draws on.
    pub closed spec fn display(self) -> Disp {
        self.display
    }

    /// Does the colon show in the next frame?
    pub closed spec fn colon(self) -> bool {
        self.colon
    }

    /// The time that the next frame shows.
    pub closed spec fn datetime(self) -> DateTime {
        self.datetime
    }

    /// The display is in order.
    pub open spec fn wf(self) -> bool {
        self.display().inv()
    }

    /// The clock showing `init_time`, with the colon hidden.
    pub fn with_time(clock: Clock, display: Disp, init_time: DateTime) -> (app: Self)
        requires
            display.inv(),
        ensures
            app.wf() && app.clock() == clock && app.display() == display,
            !app.colon(),
            app.datetime() == init_time,
    {
        Self { clock: clock, display: display, colon: false, datetime: init_time }
    }

    /// Reads the time and starts with the colon hidden. Fails where the
    /// clock cannot be read.
    pub fn new(clock: Clock, display: Disp) -> (r: Result<Self, <Clock as Read>::Error>)
        requires
            display.inv(),
        ensures
            r matches Ok(app) ==> app.wf() && app.display() == display && !app.colon(),
            Clock::keeps_record() ==> match r {
                Ok(app) => read_once(clock, app.clock(), Ok(app.datetime())),
                Err(e) => exists|after: Clock| #[trigger]
                    read_once(clock, after, Err::<DateTime, <Clock as Read>::Error>(e)),
            },
    {
        let mut reader = clock;
        let reading = reader.read();
        assert(Clock::keeps_record() ==> read_once(clock, reader, reading));
        Self::from_reading(reader, display, reading)
    }

    /// The clock that the time is read from.
    pub closed spec fn clock(self) -> Clock {
        self.clock
    }

    /// Starts with what reading the clock came to: where it is a time, the
    /// clock showing that time; where it is an error, that error.
    pub fn from_reading(
        clock: Clock,
        display: Disp,
        reading: Result<DateTime, <Clock as Read>::Error>,
    ) -> (r: Result<Self, <Clock as Read>::Error>)
        requires
            display.inv(),
        ensures
            match reading {
                Ok(init_time) => r matches Ok(app) && app.wf() && app.clock() == clock
                    && app.display() == display && !app.colon() && app.datetime() == init_time,
                Err(e) => r matches Err(same) && same == e,
            },
    {
        match reading {
            Ok(init_time) => Ok(Self::with_time(clock, display, init_time)),
            Err(e) => Err(e),
        }
    }

    /// Takes in a tick and what reading the clock came to: the colon changes
    /// over, and where the reading is a time it is the time to show from now
    /// on. Where it is an error the time stays as it was and the error is
    /// handed on.
    pub fn tick(&mut self, reading: Result<DateTime, <Clock as Read>::Error>) -> (r: Result<
        (),
        <Clock as Read>::Error,
    >)
        ensures
            final(self).clock() == old(self).clock(),
            final(self).display() == old(self).display(),
            final(self).colon() == !old(self).colon(),
            final(self).datetime() == match reading {
                Ok(now) => now,
                Err(_) => old(self).datetime(),
            },
            failure_of(r) == failure_of(reading),
    {
        self.colon = !self.colon;
        match reading {
            Ok(now) => {
                self.datetime = now;
                Ok(())
            },
            Err(e) => Err(e),
        }
    }

    /// Takes in the events since the last call. On a tick the clock is read
    /// and the tick taken in with the reading; without one nothing changes.
    pub fn update(&mut self, evts: &Events) -> (r: Result<(), <Clock as Read>::Error>)
        ensures
            final(self).display() == old(self).display(),
            final(self).colon() == (old(self).colon() != evts.tick),
            !evts.tick ==> r is Ok && final(self).datetime() == old(self).datetime()
                && final(self).clock() == old(self).clock(),
            r is Err ==> final(self).datetime() == old(self).datetime(),
            evts.tick && Clock::keeps_record() ==> {
                let reading = final(self).clock().readings().last();
                &&& read_once(old(self).clock(), final(self).clock(), reading)
                &&& failure_of(r) == failure_of(reading)
                &&& reading matches Ok(now) ==> final(self).datetime() == now
            },
    {
        if evts.tick {
            let reading = self.clock.read();
            self.tick(reading)
        } else {
            Ok(())
        }
    }

    /// Can the time be drawn? The day of the week has to be one of the seven.
    pub fn can_redraw(&self) -> (ok: bool)
        ensures
            ok == (self.datetime().day < 7),
    {
        self.datetime.day < 7
    }

    /// Draws one frame: blanks the hidden frame, draws the face into it and
    /// shows it. Stops at the first request that the display refuses.
    pub fn redraw(&mut self) -> (r: Result<(), Disp::Error>)
        requires
            old(self).wf(),
            old(self).datetime().day < 7,
        ensures
            final(self).wf(),
            final(self).clock() == old(self).clock(),
            final(self).colon() == old(self).colon(),
            final(self).datetime() == old(self).datetime(),
            Disp::keeps_record() ==> carried_out(
                old(self).display().requests(),
                final(self).display().requests(),
                frame(old(self).datetime(), old(self).colon()),
                failure_of(r),
            ),
    {
        let tiles = face_tiles(&self.datetime, self.colon);
        let ghost start = self.display.requests();
        let ghost first = seq![Request::Clear];
        let ghost middle = tile_requests(tiles@);
        let ghost last = seq![Request::Flip];

        let r = self.display.clear();
        proof {
            if Disp::keeps_record() {
                lemma_carried_out_one(start, Request::Clear, failure_of(r));
            }
        }
        if let Err(e) = r {
            proof {
                if Disp::keeps_record() {
                    lemma_carried_out_cut(start, self.display.requests(), first, middle + last, e);
                    assert(first + (middle + last) =~= first + middle + last);
                }
            }
            return Err(e);
        }
        let ghost cleared = self.display.requests();
        let r = gfx::draw_tiles(&mut self.display, &tiles);
        proof {
            if Disp::keeps_record() {
                lemma_carried_out_then(
                    start,
                    cleared,
                    self.display.requests(),
                    first,
                    middle,
                    failure_of(r),
                );
            }
        }
        if let Err(e) = r {
            proof {
                if Disp::keeps_record() {
                    lemma_carried_out_cut(start, self.display.requests(), first + middle, last, e);
                }
            }
            return Err(e);
        }
        let ghost drawn = self.display.requests();
        let r = self.display.flip();
        proof {
            if Disp::keeps_record() {
                lemma_carried_out_one(drawn, Request::Flip, failure_of(r));
                lemma_carried_out_then(
                    start,
                    drawn,
                    self.display.requests(),
                    first + middle,
                    last,
                    failure_of(r),
                );
            }
        }
        r
    }

    /// Gives the clock and the display back.
    pub fn release(self) -> (parts: (Clock, Disp))
        ensures
            parts.0 == self.clock(),
            parts.1 == self.display(),
    {
        (self.clock, self.display)
    }
}

} // verus!
