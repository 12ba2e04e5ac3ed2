//! Driver for the SSD1322 OLED controller.
//!
//! Every operation is one command of the controller. Its arguments are held
//! to the ranges the controller accepts before anything goes to the bus.

pub mod config;
pub mod gfx;
pub mod interface;
pub mod panel;
pub mod spi4wire;

use crate::record::carried_out;
use crate::record::failure_of;
use crate::record::lemma_carried_out_one;
use crate::record::Entry;
use config::DisplayEnhancementA;
use config::DisplayEnhancementB;
use config::DisplayMode;
use config::Function;
use config::GPIOState;
use config::Remap;
use interface::Interface;
use interface::Packet;
use interface::Repeat;
use vstd::prelude::*;

verus! {

#[derive(Debug)]
pub enum Error<CommsErr> {
    /// An argument is outside the range the controller accepts. Nothing was
    /// sent.
    Request,
    Protocol,
    /// The transport failed.
    Comms(CommsErr),
}

impl<CommsErr> Error<CommsErr> {
    pub fn comms(e: CommsErr) -> (err: Error<CommsErr>)
        ensures
            err == Error::Comms(e),
    {
        Error::Comms(e)
    }
}

/// The commands of `plan` went to the bus in order, up to and including the
/// first that the transport failed on, and `r` is `Ok` where none failed and
/// else holds the transport's error.
pub open spec fn transmitted<E>(
    before: Seq<Entry<Packet, E>>,
    after: Seq<Entry<Packet, E>>,
    plan: Seq<Packet>,
    r: Result<(), Error<E>>,
) -> bool {
    match r {
        Ok(_) => carried_out(before, after, plan, None::<E>),
        Err(Error::Comms(e)) => carried_out(before, after, plan, Some(e)),
        Err(_) => false,
    }
}

/// What an operation does with the bus. Where its arguments are refused there
/// is no plan: the bus is left alone and the result is `Request`. Where they
/// are accepted the commands of the plan are transmitted, and the result is
/// `Ok` or the error of the transport. What is said of the bus is said of a
/// transport that keeps a record, which `recording` tells.
pub open spec fn performed<E>(
    recording: bool,
    before: Seq<Entry<Packet, E>>,
    after: Seq<Entry<Packet, E>>,
    plan: Option<Seq<Packet>>,
    r: Result<(), Error<E>>,
) -> bool {
    match plan {
        None => r == Err::<(), Error<E>>(Error::Request) && (recording ==> after == before),
        Some(packets) => (r is Err ==> r->Err_0 is Comms) && (recording ==> transmitted(
            before,
            after,
            packets,
            r,
        )),
    }
}

/// A plan of the one command `command`, or no plan where there is none.
pub open spec fn just(command: Option<Packet>) -> Option<Seq<Packet>> {
    match command {
        Some(packet) => Some(seq![packet]),
        None => None,
    }
}

/// The command `opcode` with the data bytes `data`.
pub open spec fn packet(opcode: u8, data: Seq<u8>) -> Option<Packet> {
    Some(Packet { opcode, data })
}

/// Command 0x00: use the grey scale table that was set.
pub open spec fn enable_grayscale_table() -> Option<Packet> {
    packet(0x00, Seq::empty())
}

/// Command 0x15: the window of columns, four pixels each, that data is
/// written to. No column lies beyond 116.
pub open spec fn column_addresses(start: u8, end: u8) -> Option<Packet> {
    if start <= 116 && end <= 116 {
        packet(0x15, seq![start, end])
    } else {
        None
    }
}

/// Command 0x5c: pixel data for the window, two pixels to the byte.
pub open spec fn write_gdram(data: Seq<u8>) -> Option<Packet> {
    packet(0x5c, data)
}

/// Command 0x75: the window of rows that data is written to. No row lies
/// beyond 127.
pub open spec fn row_addresses(start: u8, end: u8) -> Option<Packet> {
    if start <= 127 && end <= 127 {
        packet(0x75, seq![start, end])
    } else {
        None
    }
}

/// Command 0xa0: how memory maps to the panel. Splitting the COM lines
/// into odd and even cannot go together with dual COM mode.
pub open spec fn remap_config(cfg: Remap) -> Option<Packet> {
    if !(cfg.com_split_odd_even && cfg.dual_com_mode) {
        packet(0xa0, seq![cfg.spec_protocol_args().0, cfg.spec_protocol_args().1])
    } else {
        None
    }
}

/// Command 0xa1: the memory row shown at the top of the panel, at most 127.
pub open spec fn display_start_line(start: u8) -> Option<Packet> {
    if start <= 127 {
        packet(0xa1, seq![start])
    } else {
        None
    }
}

/// Command 0xa2: the vertical shift of the picture, at most 127.
pub open spec fn display_offset(offset: u8) -> Option<Packet> {
    if offset <= 127 {
        packet(0xa2, seq![offset])
    } else {
        None
    }
}

/// Commands 0xa4 to 0xa7: all pixels off, all on, the picture, the picture
/// inverted.
pub open spec fn display_mode(mode: DisplayMode) -> Option<Packet> {
    packet(
        match mode {
            DisplayMode::AllOff => 0xa4,
            DisplayMode::AllOn => 0xa5,
            DisplayMode::Normal => 0xa6,
            DisplayMode::Inverted => 0xa7,
        },
        Seq::empty(),
    )
}

/// Command 0xa8: show only the rows from `start` to `end`, neither beyond
/// 127 and `end` not before `start`.
pub open spec fn partial_display(start: u8, end: u8) -> Option<Packet> {
    if start <= 127 && end <= 127 && start <= end {
        packet(0xa8, seq![start, end])
    } else {
        None
    }
}

/// Command 0xa9: show all rows again.
pub open spec fn exit_partial_display() -> Option<Packet> {
    packet(0xa9, Seq::empty())
}

/// Command 0xab: 1 to use the internal regulator for VDD, else 0.
pub open spec fn functions(cfg: Function) -> Option<Packet> {
    packet(0xab, seq![if cfg.internal_vdd_reg {
            1u8
        } else {
            0u8
        }])
}

/// Command 0xae puts the panel to sleep, 0xaf wakes it.
pub open spec fn sleep_mode(sleep: bool) -> Option<Packet> {
    packet(if sleep {
            0xae
        } else {
            0xaf
        }, Seq::empty())
}

/// Command 0xb1: the lengths of the two phases in display clocks. The
/// first is an odd number from 5 to 31, the second a number from 3 to 15.
/// The byte holds half of the first, rounded down, in its low four bits and
/// the second in its high four.
pub open spec fn phase_lengths(p1_dclks: u8, p2_dclks: u8) -> Option<Packet> {
    if 5 <= p1_dclks <= 31 && p1_dclks % 2 == 1 && 3 <= p2_dclks <= 15 {
        packet(0xb1, seq![((p1_dclks - 1) / 2 + 16 * p2_dclks) as u8])
    } else {
        None
    }
}

/// Command 0xb3: the oscillator frequency, at most 15, in the high four
/// bits and the power of two that divides it, at most 10, in the low four.
pub open spec fn clock(freq: u8, div_by_pow_2: u8) -> Option<Packet> {
    if freq <= 15 && div_by_pow_2 <= 10 {
        packet(0xb3, seq![(16 * freq + div_by_pow_2) as u8])
    } else {
        None
    }
}

/// Command 0xb4.
pub open spec fn display_enhancement_a(cfg: DisplayEnhancementA) -> Option<Packet> {
    packet(0xb4, seq![cfg.spec_protocol_args().0, cfg.spec_protocol_args().1])
}

/// Command 0xd1.
pub open spec fn display_enhancement_b(cfg: DisplayEnhancementB) -> Option<Packet> {
    packet(0xd1, seq![cfg.spec_protocol_args().0, cfg.spec_protocol_args().1])
}

/// Command 0xb5: the state of pin 0 in the bits 0 and 1, that of pin 1 in
/// the bits 2 and 3.
pub open spec fn gpio_states(gpio0: GPIOState, gpio1: GPIOState) -> Option<Packet> {
    packet(0xb5, seq![(gpio0.spec_protocol_arg() + 4 * gpio1.spec_protocol_arg()) as u8])
}

/// Command 0xb6: at most 15 display clocks.
pub open spec fn second_precharge_period(dclks: u8) -> Option<Packet> {
    if dclks <= 15 {
        packet(0xb6, seq![dclks])
    } else {
        None
    }
}

/// Can `levels` be a grey scale table: no level above 180, and each level
/// above the one before it?
pub open spec fn levels_valid(levels: Seq<u8>) -> bool {
    &&& forall|i: int| 0 <= i < levels.len() ==> #[trigger] levels[i] <= 180
    &&& forall|i: int| 0 < i < levels.len() ==> levels[i - 1] < #[trigger] levels[i]
}

/// Command 0xb8: the fifteen grey levels above black.
pub open spec fn grayscale_table(levels: Seq<u8>) -> Option<Packet> {
    if levels_valid(levels) {
        packet(0xb8, levels)
    } else {
        None
    }
}

/// Command 0xb9: go back to the built-in linear grey scale table.
pub open spec fn default_grayscale_table() -> Option<Packet> {
    packet(0xb9, Seq::empty())
}

/// Command 0xbb: a code of at most 31.
pub open spec fn precharge_voltage_level(code: u8) -> Option<Packet> {
    if code <= 31 {
        packet(0xbb, seq![code])
    } else {
        None
    }
}

/// Command 0xbe: a code of at most 7.
pub open spec fn deselect_voltage_level(code: u8) -> Option<Packet> {
    if code <= 7 {
        packet(0xbe, seq![code])
    } else {
        None
    }
}

/// Command 0xc1.
pub open spec fn contrast_current(level: u8) -> Option<Packet> {
    packet(0xc1, seq![level])
}

/// Command 0xc7: a level of at most 15.
pub open spec fn master_contrast_current_control(level: u8) -> Option<Packet> {
    if level <= 15 {
        packet(0xc7, seq![level])
    } else {
        None
    }
}

/// Command 0xca: the number of rows that are driven, from 16 to 128; the
/// byte is one less.
pub open spec fn mux_ratio(value: u8) -> Option<Packet> {
    if 16 <= value <= 128 {
        packet(0xca, seq![(value - 1) as u8])
    } else {
        None
    }
}

/// Command 0xfd: 0x16 locks the controller against commands, 0x12 unlocks it.
pub open spec fn command_lock(locked: bool) -> Option<Packet> {
    packet(0xfd, seq![if locked {
            0x16u8
        } else {
            0x12u8
        }])
}

/// A byte made of two fields of four bits is the low field plus sixteen
/// times the high one.
proof fn lemma_pack_nibbles(lo: u8, hi: u8)
    by (bit_vector)
    requires
        lo < 16,
        hi < 16,
    ensures
        lo | (hi << 4) == lo + 16 * hi,
{
}

/// Two fields of two bits, the second above the first.
proof fn lemma_pack_pairs(lo: u8, hi: u8)
    by (bit_vector)
    requires
        lo < 4,
        hi < 4,
    ensures
        lo | (hi << 2) == lo + 4 * hi,
{
}

/// The controller behind the transport `I`.
pub struct SSD1322<I: Interface>(pub(crate) I);

impl<I: Interface> SSD1322<I> {
    /// The transport this driver owns.
    pub closed spec fn interface(self) -> I {
        self.0
    }

    /// Every command that went to the transport so far.
    pub open spec fn sent(self) -> Seq<Entry<Packet, I::Error>> {
        self.interface().sent()
    }

    pub fn new(ifc: I) -> (drv: SSD1322<I>)
        ensures
            drv.interface() == ifc,
    {
        Self(ifc)
    }

    /// Gives the transport back.
    pub fn release(self) -> (ifc: I)
        ensures
            ifc == self.interface(),
    {
        self.0
    }

    fn send_0(&mut self, cmd: u8) -> (r: Result<(), Error<I::Error>>)
        ensures
            performed(
                I::keeps_record(),
                old(self).sent(),
                final(self).sent(),
                just(packet(cmd, Seq::empty())), r),
    {
        let ghost before = self.0.sent();
        let r = self.0.cmd_0(cmd);
        proof {
            lemma_carried_out_one(
                before,
                Packet { opcode: cmd, data: Seq::empty() },
                failure_of(r),
            );
        }
        match r {
            Ok(_) => Ok(()),
            Err(e) => Err(Error::comms(e)),
        }
    }

    fn send_1(&mut self, cmd: u8, a: u8) -> (r: Result<(), Error<I::Error>>)
        ensures
            performed(
                I::keeps_record(),
                old(self).sent(),
                final(self).sent(),
                just(packet(cmd, seq![a])), r),
    {
        let ghost before = self.0.sent();
        let r = self.0.cmd_1(cmd, a);
        proof {
            lemma_carried_out_one(before, Packet { opcode: cmd, data: seq![a] }, failure_of(r));
        }
        match r {
            Ok(_) => Ok(()),
            Err(e) => Err(Error::comms(e)),
        }
    }

    fn send_2(&mut self, cmd: u8, a: u8, b: u8) -> (r: Result<(), Error<I::Error>>)
        ensures
            performed(
                I::keeps_record(),
                old(self).sent(),
                final(self).sent(),
                just(packet(cmd, seq![a, b])), r),
    {
        let ghost before = self.0.sent();
        let r = self.0.cmd_2(cmd, a, b);
        proof {
            lemma_carried_out_one(before, Packet { opcode: cmd, data: seq![a, b] }, failure_of(r));
        }
        match r {
            Ok(_) => Ok(()),
            Err(e) => Err(Error::comms(e)),
        }
    }

    fn send_n(&mut self, cmd: u8, data: &[u8]) -> (r: Result<(), Error<I::Error>>)
        ensures
            performed(
                I::keeps_record(),
                old(self).sent(),
                final(self).sent(),
                just(packet(cmd, data@)), r),
    {
        let ghost before = self.0.sent();
        let r = self.0.cmd_n(cmd, data);
        proof {
            lemma_carried_out_one(before, Packet { opcode: cmd, data: data@ }, failure_of(r));
        }
        match r {
            Ok(_) => Ok(()),
            Err(e) => Err(Error::comms(e)),
        }
    }

    pub fn enable_grayscale_table(&mut self) -> (r: Result<(), Error<I::Error>>)
        ensures
            performed(
                I::keeps_record(),
                old(self).sent(),
                final(self).sent(),
                just(self::enable_grayscale_table()),
                r,
            ),
    {
        self.send_0(0x00)
    }

    pub fn set_column_addresses(&mut self, start: u8, end: u8) -> (r: Result<(), Error<I::Error>>)
        ensures
            performed(
                I::keeps_record(),
                old(self).sent(),
                final(self).sent(),
                just(self::column_addresses(start, end)),
                r,
            ),
    {
        if start > 116 || end > 116 {
            return Err(Error::Request);
        }
        self.send_2(0x15, start, end)
    }

    pub fn write_gdram(&mut self, data: &[u8]) -> (r: Result<(), Error<I::Error>>)
        ensures
            performed(
                I::keeps_record(),
                old(self).sent(),
                final(self).sent(),
                just(self::write_gdram(data@)),
                r,
            ),
    {
        self.send_n(0x5c, data)
    }

    /// Writes pixel data that is a run of equal bytes.
    pub fn write_gdram_iter(&mut self, data: Repeat) -> (r: Result<(), Error<I::Error>>)
        ensures
            performed(
                I::keeps_record(),
                old(self).sent(),
                final(self).sent(),
                just(self::write_gdram(data@)),
                r,
            ),
    {
        let ghost before = self.0.sent();
        let r = self.0.cmd_n_iter(0x5c, data);
        proof {
            lemma_carried_out_one(before, Packet { opcode: 0x5c, data: data@ }, failure_of(r));
        }
        match r {
            Ok(_) => Ok(()),
            Err(e) => Err(Error::comms(e)),
        }
    }

    pub fn set_row_addresses(&mut self, start: u8, end: u8) -> (r: Result<(), Error<I::Error>>)
        ensures
            performed(
                I::keeps_record(),
                old(self).sent(),
                final(self).sent(),
                just(self::row_addresses(start, end)),
                r,
            ),
    {
        if start > 127 || end > 127 {
            return Err(Error::Request);
        }
        self.send_2(0x75, start, end)
    }

    pub fn set_remap_config(&mut self, cfg: Remap) -> (r: Result<(), Error<I::Error>>)
        ensures
            performed(
                I::keeps_record(),
                old(self).sent(),
                final(self).sent(),
                just(self::remap_config(cfg)),
                r,
            ),
    {
        if cfg.com_split_odd_even && cfg.dual_com_mode {
            return Err(Error::Request);
        }
        let (a, b) = cfg.protocol_args();
        self.send_2(0xa0, a, b)
    }

    pub fn set_display_start_line(&mut self, start: u8) -> (r: Result<(), Error<I::Error>>)
        ensures
            performed(
                I::keeps_record(),
                old(self).sent(),
                final(self).sent(),
                just(self::display_start_line(start)),
                r,
            ),
    {
        if start > 127 {
            return Err(Error::Request);
        }
        self.send_1(0xa1, start)
    }

    pub fn set_display_offset(&mut self, offset: u8) -> (r: Result<(), Error<I::Error>>)
        ensures
            performed(
                I::keeps_record(),
                old(self).sent(),
                final(self).sent(),
                just(self::display_offset(offset)),
                r,
            ),
    {
        if offset > 127 {
            return Err(Error::Request);
        }
        self.send_1(0xa2, offset)
    }

    pub fn set_display_mode(&mut self, mode: DisplayMode) -> (r: Result<(), Error<I::Error>>)
        ensures
            performed(
                I::keeps_record(),
                old(self).sent(),
                final(self).sent(),
                just(self::display_mode(mode)),
                r,
            ),
    {
        let cmd: u8 = match mode {
            DisplayMode::AllOff => 0xa4,
            DisplayMode::AllOn => 0xa5,
            DisplayMode::Normal => 0xa6,
            DisplayMode::Inverted => 0xa7,
        };
        self.send_0(cmd)
    }

    pub fn enable_partial_display(&mut self, start: u8, end: u8) -> (r: Result<(), Error<I::Error>>)
        ensures
            performed(
                I::keeps_record(),
                old(self).sent(),
                final(self).sent(),
                just(self::partial_display(start, end)),
                r,
            ),
    {
        if start > 127 || end > 127 || end < start {
            return Err(Error::Request);
        }
        self.send_2(0xa8, start, end)
    }

    pub fn exit_partial_display(&mut self) -> (r: Result<(), Error<I::Error>>)
        ensures
            performed(
                I::keeps_record(),
                old(self).sent(),
                final(self).sent(),
                just(self::exit_partial_display()),
                r,
            ),
    {
        self.send_0(0xa9)
    }

    pub fn select_functions(&mut self, cfg: Function) -> (r: Result<(), Error<I::Error>>)
        ensures
            performed(
                I::keeps_record(),
                old(self).sent(),
                final(self).sent(),
                just(self::functions(cfg)),
                r,
            ),
    {
        self.send_1(
            0xab,
            if cfg.internal_vdd_reg {
                0x01
            } else {
                0x00
            },
        )
    }

    pub fn set_sleep_mode(&mut self, sleep: bool) -> (r: Result<(), Error<I::Error>>)
        ensures
            performed(
                I::keeps_record(),
                old(self).sent(),
                final(self).sent(),
                just(self::sleep_mode(sleep)),
                r,
            ),
    {
        self.send_0(
            if sleep {
                0xae
            } else {
                0xaf
            },
        )
    }

    pub fn set_phase_lengths(&mut self, p1_dclks: u8, p2_dclks: u8) -> (r: Result<(), Error<I::Error>>)
        ensures
            performed(
                I::keeps_record(),
                old(self).sent(),
                final(self).sent(),
                just(self::phase_lengths(p1_dclks, p2_dclks)),
                r,
            ),
    {
        if p1_dclks < 5 || p1_dclks > 31 || (p1_dclks % 2) == 0 {
            return Err(Error::Request);
        }
        if p2_dclks < 3 || p2_dclks > 15 {
            return Err(Error::Request);
        }
        let p1_raw = (p1_dclks - 1) / 2;
        let p2_raw = p2_dclks;
        proof {
            lemma_pack_nibbles(p1_raw, p2_raw);
        }
        let raw = p1_raw | (p2_raw << 4);
        self.send_1(0xb1, raw)
    }

    pub fn set_clock(&mut self, freq: u8, div_by_pow_2: u8) -> (r: Result<(), Error<I::Error>>)
        ensures
            performed(
                I::keeps_record(),
                old(self).sent(),
                final(self).sent(),
                just(self::clock(freq, div_by_pow_2)),
                r,
            ),
    {
        if freq > 0b1111 {
            return Err(Error::Request);
        }
        if div_by_pow_2 > 0b1010 {
            return Err(Error::Request);
        }
        proof {
            lemma_pack_nibbles(div_by_pow_2, freq);
        }
        let raw = div_by_pow_2 | (freq << 4);
        self.send_1(0xb3, raw)
    }

    pub fn set_display_enhancement_a(&mut self, cfg: DisplayEnhancementA) -> (r: Result<(), Error<I::Error>>)
        ensures
            performed(
                I::keeps_record(),
                old(self).sent(),
                final(self).sent(),
                just(self::display_enhancement_a(cfg)),
                r,
            ),
    {
        let (a, b) = cfg.protocol_args();
        self.send_2(0xb4, a, b)
    }

    pub fn set_display_enhancement_b(&mut self, cfg: DisplayEnhancementB) -> (r: Result<(), Error<I::Error>>)
        ensures
            performed(
                I::keeps_record(),
                old(self).sent(),
                final(self).sent(),
                just(self::display_enhancement_b(cfg)),
                r,
            ),
    {
        let (a, b) = cfg.protocol_args();
        self.send_2(0xd1, a, b)
    }

    pub fn set_gpio_states(&mut self, gpio0: GPIOState, gpio1: GPIOState) -> (r: Result<(), Error<I::Error>>)
        ensures
            performed(
                I::keeps_record(),
                old(self).sent(),
                final(self).sent(),
                just(self::gpio_states(gpio0, gpio1)),
                r,
            ),
    {
        let gpio0_raw = gpio0.protocol_arg();
        let gpio1_raw = gpio1.protocol_arg();
        proof {
            lemma_pack_pairs(gpio0_raw, gpio1_raw);
        }
        let raw = gpio0_raw | (gpio1_raw << 2);
        self.send_1(0xb5, raw)
    }

    pub fn set_second_precharge_period(&mut self, dclks: u8) -> (r: Result<(), Error<I::Error>>)
        ensures
            performed(
                I::keeps_record(),
                old(self).sent(),
                final(self).sent(),
                just(self::second_precharge_period(dclks)),
                r,
            ),
    {
        if dclks > 15 {
            return Err(Error::Request);
        }
        self.send_1(0xb6, dclks)
    }

    pub fn set_grayscale_table(&mut self, levels: [u8; 15]) -> (r: Result<(), Error<I::Error>>)
        ensures
            performed(
                I::keeps_record(),
                old(self).sent(),
                final(self).sent(),
                just(self::grayscale_table(levels@)),
                r,
            ),
    {
        let mut prev: u8 = 0;
        let mut i: usize = 0;
        while i < 15
            invariant
                i <= 15,
                *self == *old(self),
                i > 0 ==> prev == levels@[i - 1],
                forall|j: int| 0 <= j < i ==> #[trigger] levels@[j] <= 180,
                forall|j: int| 0 < j < i ==> levels@[j - 1] < #[trigger] levels@[j],
            decreases 15 - i,
        {
            let v = levels[i];
            if v > 180 {
                return Err(Error::Request);
            }
            if i > 0 && v <= prev {
                return Err(Error::Request);
            }
            prev = v;
            i += 1;
        }
        self.send_n(0xb8, levels.as_slice())
    }

    pub fn set_default_grayscale_table(&mut self) -> (r: Result<(), Error<I::Error>>)
        ensures
            performed(
                I::keeps_record(),
                old(self).sent(),
                final(self).sent(),
                just(self::default_grayscale_table()),
                r,
            ),
    {
        self.send_0(0xb9)
    }

    pub fn set_precharge_voltage_level(&mut self, code: u8) -> (r: Result<(), Error<I::Error>>)
        ensures
            performed(
                I::keeps_record(),
                old(self).sent(),
                final(self).sent(),
                just(self::precharge_voltage_level(code)),
                r,
            ),
    {
        if code > 0b11111 {
            return Err(Error::Request);
        }
        self.send_1(0xbb, code)
    }

    pub fn set_deselect_voltage_level(&mut self, code: u8) -> (r: Result<(), Error<I::Error>>)
        ensures
            performed(
                I::keeps_record(),
                old(self).sent(),
                final(self).sent(),
                just(self::deselect_voltage_level(code)),
                r,
            ),
    {
        if code > 0b111 {
            return Err(Error::Request);
        }
        self.send_1(0xbe, code)
    }

    pub fn set_contrast_current(&mut self, level: u8) -> (r: Result<(), Error<I::Error>>)
        ensures
            performed(
                I::keeps_record(),
                old(self).sent(),
                final(self).sent(),
                just(self::contrast_current(level)),
                r,
            ),
    {
        self.send_1(0xc1, level)
    }

    pub fn set_master_contrast_current_control(&mut self, level: u8) -> (r: Result<(), Error<I::Error>>)
        ensures
            performed(
                I::keeps_record(),
                old(self).sent(),
                final(self).sent(),
                just(self::master_contrast_current_control(level)),
                r,
            ),
    {
        if level > 0b1111 {
            return Err(Error::Request);
        }
        self.send_1(0xc7, level)
    }

    pub fn set_mux_ratio(&mut self, value: u8) -> (r: Result<(), Error<I::Error>>)
        ensures
            performed(
                I::keeps_record(),
                old(self).sent(),
                final(self).sent(),
                just(self::mux_ratio(value)),
                r,
            ),
    {
        if value < 16 || value > 128 {
            return Err(Error::Request);
        }
        let raw = value - 1;
        self.send_1(0xca, raw)
    }

    pub fn set_command_lock(&mut self, locked: bool) -> (r: Result<(), Error<I::Error>>)
        ensures
            performed(
                I::keeps_record(),
                old(self).sent(),
                final(self).sent(),
                just(self::command_lock(locked)),
                r,
            ),
    {
        let raw: u8 = if locked {
            0b00010110
        } else {
            0b00010010
        };
        self.send_1(0xfd, raw)
    }
}

} // verus!
