//! The registers of the DS3231 real-time clock.
//!
//! The chip keeps the time in seven registers from address 0 and its
//! square wave setting in the control register.

use crate::bcdtime::DateTime;
use crate::bcdtime::BCD;
use vstd::prelude::*;

verus! {

/// The address of the chip on the bus.
pub const I2C_ADDR: u8 = 0x68;

/// The address of the control register.
pub const CONTROL: u8 = 0x0e;

#[derive(Debug)]
pub enum Error<WRErr, WErr> {
    Request,
    Protocol,
    WriteRead(WRErr),
    Write(WErr),
}

impl<WRErr, WErr> Error<WRErr, WErr> {
    pub fn wr(err: WRErr) -> (e: Self)
        ensures
            e == Error::<WRErr, WErr>::WriteRead(err),
    {
        Error::WriteRead(err)
    }

    pub fn w(err: WErr) -> (e: Self)
        ensures
            e == Error::<WRErr, WErr>::Write(err),
    {
        Error::Write(err)
    }
}

#[derive(Clone, Copy, Debug)]
pub enum SquareWaveFrequency {
    Disabled,
    Freq1Hz,
    Freq1_024kHz,
    Freq4_096kHz,
    Freq8_192kHz,
}

/// The value of the control register for a square wave setting: bit 2
/// switches the square wave off, the bits 3 and 4 choose its rate.
pub open spec fn control_value(freq: SquareWaveFrequency) -> u8 {
    match freq {
        SquareWaveFrequency::Disabled => 0x04,
        SquareWaveFrequency::Freq1Hz => 0x00,
        SquareWaveFrequency::Freq1_024kHz => 0x08,
        SquareWaveFrequency::Freq4_096kHz => 0x10,
        SquareWaveFrequency::Freq8_192kHz => 0x18,
    }
}

/// The bytes to write for a square wave setting: the address of the
/// control register and its value. The other settings of the register are
/// cleared.
pub fn square_wave_message(freq: SquareWaveFrequency) -> (msg: [u8; 2])
    ensures
        msg@ == seq![CONTROL, control_value(freq)],
{
    let raw: u8 = match freq {
        SquareWaveFrequency::Disabled => 0b00000100,
        SquareWaveFrequency::Freq1Hz => 0b00000000,
        SquareWaveFrequency::Freq1_024kHz => 0b00001000,
        SquareWaveFrequency::Freq4_096kHz => 0b00010000,
        SquareWaveFrequency::Freq8_192kHz => 0b00011000,
    };
    let msg = [CONTROL, raw];
    assert(msg@ =~= seq![CONTROL, control_value(freq)]);
    msg
}

proof fn lemma_masks(b: u8)
    by (bit_vector)
    ensures
        (b & 0x40 == 0) == ((b / 64) % 2 == 0),
        b & 0x3f == b % 64,
        b & 0x1f == b % 32,
        b & 0x40 == ((b / 64) % 2) * 64,
{
}

/// The time that the seven time registers `regs` hold. Bit 6 of the hour
/// register is set in 12-hour mode, in which bit 5 tells morning from
/// afternoon and is left out of the hour. Bit 7 of the month register is the
/// century and is left out of the month.
pub fn decode_registers(regs: &[u8; 7]) -> (t: DateTime)
    ensures
        t.second@ == regs@[0],
        t.minute@ == regs@[1],
        t.hr24 == ((regs@[2] / 64) % 2 == 0),
        t.hour@ == if t.hr24 {
            regs@[2] % 64
        } else {
            regs@[2] % 32
        },
        t.day == regs@[3],
        t.date@ == regs@[4],
        t.month@ == regs@[5] % 32,
        t.year@ == regs@[6],
{
    let hour = regs[2];
    let month = regs[5];
    proof {
        lemma_masks(hour);
        lemma_masks(month);
    }
    DateTime {
        second: BCD::from_raw(regs[0]),
        minute: BCD::from_raw(regs[1]),
        hour: {
            if (hour & 0b01000000) == 0 {
                BCD::from_raw(hour & 0b00111111)
            } else {
                BCD::from_raw(hour & 0b00011111)
            }
        },
        day: regs[3],
        date: BCD::from_raw(regs[4]),
        month: BCD::from_raw(month & 0b00011111),
        year: BCD::from_raw(regs[6]),
        hr24: (hour & 0b01000000) == 0,
    }
}

/// The bytes to write to set the time `dt`: the address of the first time
/// register, then the seven registers. For a time in 12-hour mode the hour
/// register keeps its mode bit only.
pub fn encode_registers(dt: &DateTime) -> (raw: [u8; 8])
    ensures
        raw@ == seq![
            0u8,
            dt.second@,
            dt.minute@,
            if dt.hr24 {
                dt.hour@
            } else {
                (((dt.hour@ / 64) % 2) * 64) as u8
            },
            dt.day,
            dt.date@,
            dt.month@,
            dt.year@,
        ],
{
    let mut hour = dt.hour.raw();
    if !dt.hr24 {
        proof {
            lemma_masks(hour);
        }
        hour = hour & 0b01000000;
    }
    let raw = [
        0u8,
        dt.second.raw(),
        dt.minute.raw(),
        hour,
        dt.day,
        dt.date.raw(),
        dt.month.raw(),
        dt.year.raw(),
    ];
    assert(raw@ =~= seq![
        0u8,
        dt.second@,
        dt.minute@,
        if dt.hr24 {
            dt.hour@
        } else {
            (((dt.hour@ / 64) % 2) * 64) as u8
        },
        dt.day,
        dt.date@,
        dt.month@,
        dt.year@,
    ]);
    raw
}

} // verus!
