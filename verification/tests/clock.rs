use miniclock::bcdtime::DateTime;
use miniclock::bcdtime::Read;
use miniclock::bcdtime::Write;
use miniclock::bcdtime::BCD;
use miniclock::clockmain::digitfont::Digit;
use miniclock::clockmain::face_tiles;
use miniclock::clockmain::gfx;
use miniclock::clockmain::App;
use miniclock::clockmain::Events;
use miniclock::ds3231;
use miniclock::ds3231::SquareWaveFrequency;
use miniclock::graphics::vector::Rect;
use miniclock::graphics::vector::Vector;
use miniclock::graphics::Display;
use miniclock::graphics::Tile;

#[derive(Clone, Debug, PartialEq)]
enum Asked {
    Clear,
    Flip,
    Tile(u16, i32, i32),
    Fill(Rect),
}

struct Canvas {
    asked: Vec<Asked>,
    fail_at: Option<usize>,
}

impl Canvas {
    fn note(&mut self, what: Asked) -> Result<(), usize> {
        let n = self.asked.len();
        self.asked.push(what);
        match self.fail_at {
            Some(k) if n >= k => Err(n),
            _ => Ok(()),
        }
    }
}

impl Display for Canvas {
    type Error = usize;

    fn size(&self) -> Vector {
        Vector(64, 16)
    }

    fn flip(&mut self) -> Result<(), usize> {
        self.note(Asked::Flip)
    }

    fn clear(&mut self) -> Result<(), usize> {
        self.note(Asked::Clear)
    }

    fn draw_tile<T: Tile>(&mut self, tile: T, pos: Vector) -> Result<(), usize> {
        self.note(Asked::Tile(tile.raw_pixel_data(), pos.0, pos.1))
    }

    fn fill_rect(&mut self, rect: Rect) -> Result<(), usize> {
        self.note(Asked::Fill(rect))
    }
}

/// A clock that gives the times it was loaded with, one per reading, and
/// fails when it has none left.
struct Script {
    times: Vec<DateTime>,
    reads: usize,
}

impl Read for Script {
    type Error = &'static str;

    fn read(&mut self) -> Result<DateTime, &'static str> {
        self.reads += 1;
        if self.times.is_empty() {
            Err("no time")
        } else {
            Ok(self.times.remove(0))
        }
    }
}

impl Write for Script {
    type Error = &'static str;

    fn write(&mut self, _dt: &DateTime) -> Result<(), &'static str> {
        Ok(())
    }
}

fn time(hour: u8, minute: u8, day: u8, date: u8) -> DateTime {
    DateTime {
        second: BCD::from(0),
        minute: BCD::from(minute),
        hour: BCD::from(hour),
        day,
        date: BCD::from(date),
        month: BCD::from(1),
        year: BCD::from(19),
        hr24: true,
    }
}

fn tiles_of(parts: Vec<Vec<gfx::Placement>>) -> Vec<Asked> {
    let mut out = Vec::new();
    for part in parts.iter() {
        for p in part.iter() {
            out.push(Asked::Tile(p.pixels, p.pos.0, p.pos.1));
        }
    }
    out
}

fn app(times: Vec<DateTime>, fail_at: Option<usize>) -> App<Script, Canvas> {
    let clock = Script { times, reads: 0 };
    let display = Canvas { asked: Vec::new(), fail_at };
    match App::new(clock, display) {
        Ok(a) => a,
        Err(e) => panic!("could not start: {}", e),
    }
}

#[test]
fn bcd_from_a_number_packs_tens_over_units() {
    assert_eq!(BCD::from(0).raw(), 0x00);
    assert_eq!(BCD::from(9).raw(), 0x09);
    assert_eq!(BCD::from(10).raw(), 0x10);
    assert_eq!(BCD::from(59).raw(), 0x59);
    assert_eq!(BCD::from(99).raw(), 0x99);
}

#[test]
fn bcd_from_a_number_above_99_keeps_the_tens_modulo_16() {
    assert_eq!(BCD::from(100).raw(), 0xa0);
    assert_eq!(BCD::from(159).raw(), 0xf9);
    assert_eq!(BCD::from(160).raw(), 0x00);
    assert_eq!(BCD::from(255).raw(), 0x95);
}

#[test]
fn bcd_digits() {
    let b = BCD::from_raw(0x47);
    assert_eq!(b.tens(), 4);
    assert_eq!(b.units(), 7);
    assert_eq!(b.digit(0), 7);
    assert_eq!(b.digit(1), 4);
    assert_eq!(b.value(), 47);
    assert_eq!(b.raw(), 0x47);
    let odd = BCD::from_raw(0xfe);
    assert_eq!(odd.tens(), 15);
    assert_eq!(odd.units(), 14);
    assert_eq!(odd.value(), 164);
}

#[test]
fn bcd_round_trip_up_to_99() {
    for v in 0..=99u8 {
        assert_eq!(BCD::from(v).value(), v);
        let back: BCD = v.into();
        assert_eq!(back.raw(), BCD::from(v).raw());
    }
}

#[test]
fn square_wave_settings() {
    assert_eq!(ds3231::square_wave_message(SquareWaveFrequency::Disabled), [0x0e, 0x04]);
    assert_eq!(ds3231::square_wave_message(SquareWaveFrequency::Freq1Hz), [0x0e, 0x00]);
    assert_eq!(ds3231::square_wave_message(SquareWaveFrequency::Freq1_024kHz), [0x0e, 0x08]);
    assert_eq!(ds3231::square_wave_message(SquareWaveFrequency::Freq4_096kHz), [0x0e, 0x10]);
    assert_eq!(ds3231::square_wave_message(SquareWaveFrequency::Freq8_192kHz), [0x0e, 0x18]);
}

#[test]
fn registers_decode_in_24_hour_mode() {
    let t = ds3231::decode_registers(&[0x56, 0x34, 0x23, 0x04, 0x31, 0x92, 0x19]);
    assert_eq!(t.second.raw(), 0x56);
    assert_eq!(t.minute.raw(), 0x34);
    assert_eq!(t.hour.raw(), 0x23);
    assert_eq!(t.day, 4);
    assert_eq!(t.date.raw(), 0x31);
    assert_eq!(t.month.raw(), 0x12);
    assert_eq!(t.year.raw(), 0x19);
    assert!(t.hr24);
}

#[test]
fn registers_decode_in_12_hour_mode() {
    let t = ds3231::decode_registers(&[0x00, 0x00, 0x72, 0x00, 0x01, 0x01, 0x00]);
    assert_eq!(t.hour.raw(), 0x12);
    assert!(!t.hr24);
    let t = ds3231::decode_registers(&[0x00, 0x00, 0x49, 0x00, 0x01, 0x01, 0x00]);
    assert_eq!(t.hour.raw(), 0x09);
    assert!(!t.hr24);
    let t = ds3231::decode_registers(&[0x00, 0x00, 0xa3, 0x00, 0x01, 0x01, 0x00]);
    assert_eq!(t.hour.raw(), 0x23);
    assert!(t.hr24);
}

#[test]
fn registers_encode_after_the_register_address() {
    let t = ds3231::decode_registers(&[0x56, 0x34, 0x23, 0x04, 0x31, 0x12, 0x19]);
    assert_eq!(ds3231::encode_registers(&t), [0x00, 0x56, 0x34, 0x23, 0x04, 0x31, 0x12, 0x19]);
}

#[test]
fn registers_encode_in_12_hour_mode_keeps_the_mode_bit_only() {
    let mut t = time(12, 0, 0, 1);
    t.hr24 = false;
    assert_eq!(ds3231::encode_registers(&t)[3], 0x00);
    t.hour = BCD::from_raw(0x52);
    assert_eq!(ds3231::encode_registers(&t)[3], 0x40);
    t.hr24 = true;
    assert_eq!(ds3231::encode_registers(&t)[3], 0x52);
}

#[test]
fn clock_chip_errors_keep_the_cause() {
    assert!(matches!(ds3231::Error::<u8, u16>::wr(1), ds3231::Error::WriteRead(1)));
    assert!(matches!(ds3231::Error::<u8, u16>::w(2), ds3231::Error::Write(2)));
}

#[test]
fn events_start_empty_and_reset() {
    let mut e = Events::default();
    assert!(!e.tick);
    assert!(!e.has_pending());
    e.tick = true;
    assert!(e.has_pending());
    e.reset();
    assert!(!e.tick);
    assert!(!e.has_pending());
    assert_eq!(e, Events::default());
}

#[test]
fn app_fails_to_start_without_a_time() {
    let clock = Script { times: vec![], reads: 0 };
    let display = Canvas { asked: Vec::new(), fail_at: None };
    assert!(matches!(App::new(clock, display), Err("no time")));
}

#[test]
fn app_draws_a_frame_between_clear_and_flip() {
    let t = time(12, 34, 0, 21);
    let mut a = app(vec![t], None);
    assert!(a.can_redraw());
    assert_eq!(a.redraw(), Ok(()));
    let (_, display) = a.release();
    let mut expected = vec![Asked::Clear];
    expected.extend(tiles_of(vec![
        gfx::big_digit_tiles(Digit::get(1), Vector(0, 0)),
        gfx::big_digit_tiles(Digit::get(2), Vector(10, 0)),
        gfx::big_digit_tiles(Digit::get(3), Vector(24, 0)),
        gfx::big_digit_tiles(Digit::get(4), Vector(34, 0)),
        gfx::block_text_tiles(b"MON", Vector(47, 5)),
        gfx::block_char_tiles(b'2', Vector(47, 11)),
        gfx::block_char_tiles(b'1', Vector(53, 11)),
        gfx::block_char_tiles(0x7c, Vector(59, 11)),
    ]));
    expected.push(Asked::Flip);
    assert_eq!(display.asked, expected);
}

#[test]
fn app_shows_the_colon_on_every_other_tick() {
    let t = time(9, 5, 6, 3);
    let mut a = app(vec![t, t, t], None);
    let tick = Events { tick: true };
    assert_eq!(a.update(&tick), Ok(()));
    assert_eq!(a.redraw(), Ok(()));
    assert_eq!(a.update(&tick), Ok(()));
    assert_eq!(a.redraw(), Ok(()));
    let (clock, display) = a.release();
    assert_eq!(clock.reads, 3);
    let face = |colon: bool| {
        let mut parts = vec![
            gfx::big_digit_tiles(Digit::get(0), Vector(0, 0)),
            gfx::big_digit_tiles(Digit::get(9), Vector(10, 0)),
            gfx::big_digit_tiles(Digit::get(0), Vector(24, 0)),
            gfx::big_digit_tiles(Digit::get(5), Vector(34, 0)),
        ];
        if colon {
            parts.push(gfx::colon_tiles(Vector(20, 0)));
        }
        parts.push(gfx::block_text_tiles(b"SUN", Vector(47, 5)));
        parts.push(gfx::block_char_tiles(b'0', Vector(47, 11)));
        parts.push(gfx::block_char_tiles(b'3', Vector(53, 11)));
        parts.push(gfx::block_char_tiles(0x7e, Vector(59, 11)));
        let mut all = vec![Asked::Clear];
        all.extend(tiles_of(parts));
        all.push(Asked::Flip);
        all
    };
    let mut expected = face(true);
    expected.extend(face(false));
    assert_eq!(display.asked, expected);
}

#[test]
fn app_without_a_tick_reads_nothing_and_keeps_the_colon() {
    let t = time(9, 5, 6, 3);
    let mut a = app(vec![t], None);
    assert_eq!(a.update(&Events { tick: false }), Ok(()));
    let quiet = face_tiles(&t, false);
    assert_eq!(a.redraw(), Ok(()));
    let (clock, display) = a.release();
    assert_eq!(clock.reads, 1);
    assert_eq!(display.asked.len(), quiet.len() + 2);
}

#[test]
fn app_keeps_the_time_when_the_clock_fails() {
    let t = time(23, 59, 2, 11);
    let mut a = app(vec![t], None);
    assert_eq!(a.update(&Events { tick: true }), Err("no time"));
    assert_eq!(a.redraw(), Ok(()));
    let (_, display) = a.release();
    let with_colon = face_tiles(&t, true);
    assert_eq!(display.asked.len(), with_colon.len() + 2);
    assert_eq!(display.asked[1], Asked::Tile(0xffff, 2, 0));
}

#[test]
fn app_takes_the_new_time_on_a_tick() {
    let mut a = app(vec![time(1, 1, 0, 1), time(20, 8, 3, 22)], None);
    assert_eq!(a.update(&Events { tick: true }), Ok(()));
    assert_eq!(a.redraw(), Ok(()));
    let (_, display) = a.release();
    let face = face_tiles(&time(20, 8, 3, 22), true);
    let mut expected = vec![Asked::Clear];
    expected.extend(tiles_of(vec![face]));
    expected.push(Asked::Flip);
    assert_eq!(display.asked, expected);
}

#[test]
fn ordinals_pick_their_ligature_and_width() {
    let tail = |date: u8| {
        let tiles = face_tiles(&time(0, 0, 0, date), false);
        let lig = |c: u8, x: i32| gfx::block_char_tiles(c, Vector(x, 11));
        let mut found = None;
        for (c, x) in [(0x7bu8, 58), (0x7c, 59), (0x7d, 58), (0x7e, 59)] {
            let want = lig(c, x);
            let n = want.len();
            let have = &tiles[tiles.len() - n..];
            let same = have.iter().zip(want.iter()).all(|(a, b)| a.pixels == b.pixels && a.pos == b.pos);
            if same {
                assert!(found.is_none());
                found = Some(c);
            }
        }
        found
    };
    assert_eq!(tail(1), Some(0x7c));
    assert_eq!(tail(2), Some(0x7d));
    assert_eq!(tail(3), Some(0x7e));
    assert_eq!(tail(4), Some(0x7b));
    assert_eq!(tail(10), Some(0x7b));
    assert_eq!(tail(11), Some(0x7b));
    assert_eq!(tail(12), Some(0x7b));
    assert_eq!(tail(13), Some(0x7b));
    assert_eq!(tail(21), Some(0x7c));
    assert_eq!(tail(22), Some(0x7d));
    assert_eq!(tail(23), Some(0x7e));
    assert_eq!(tail(30), Some(0x7b));
    assert_eq!(tail(31), Some(0x7c));
}

#[test]
fn date_digits_sit_left_of_the_ligature() {
    let tiles = face_tiles(&time(0, 0, 0, 24), false);
    let two = gfx::block_char_tiles(b'2', Vector(46, 11));
    let four = gfx::block_char_tiles(b'4', Vector(52, 11));
    let th = gfx::block_char_tiles(0x7b, Vector(58, 11));
    let n = two.len() + four.len() + th.len();
    let have = &tiles[tiles.len() - n..];
    let mut want = two;
    want.extend(four);
    want.extend(th);
    for (a, b) in have.iter().zip(want.iter()) {
        assert_eq!(a.pixels, b.pixels);
        assert_eq!(a.pos, b.pos);
    }
}

#[test]
fn app_cannot_draw_a_day_that_is_not_in_the_week() {
    let a = app(vec![time(0, 0, 7, 1)], None);
    assert!(!a.can_redraw());
    let a = app(vec![time(0, 0, 6, 1)], None);
    assert!(a.can_redraw());
}

#[test]
fn app_stops_drawing_at_the_first_refusal() {
    let t = time(12, 34, 0, 21);
    for k in [0usize, 1, 50] {
        let mut a = app(vec![t], Some(k));
        assert_eq!(a.redraw(), Err(k));
        let (_, display) = a.release();
        assert_eq!(display.asked.len(), k + 1);
        assert_eq!(display.asked[0], Asked::Clear);
    }
    let n = face_tiles(&t, false).len();
    let mut a = app(vec![t], Some(n + 1));
    assert_eq!(a.redraw(), Err(n + 1));
    let (_, display) = a.release();
    assert_eq!(display.asked[n + 1], Asked::Flip);
}

#[test]
fn calendar_fields_become_bcd() {
    let c = miniclock::simulator::Calendar {
        second: 7,
        minute: 45,
        hour: 23,
        weekday: 6,
        day: 31,
        month: 12,
        year: 2019,
    };
    let t = miniclock::simulator::from_calendar(&c);
    assert_eq!(t.second.raw(), 0x07);
    assert_eq!(t.minute.raw(), 0x45);
    assert_eq!(t.hour.raw(), 0x23);
    assert_eq!(t.day, 6);
    assert_eq!(t.date.raw(), 0x31);
    assert_eq!(t.month.raw(), 0x12);
    assert_eq!(t.year.raw(), 0x19);
    assert!(t.hr24);
}

#[test]
fn calendar_year_counts_from_2000_in_a_byte() {
    let mut c = miniclock::simulator::Calendar {
        second: 0,
        minute: 0,
        hour: 0,
        weekday: 0,
        day: 1,
        month: 1,
        year: 2000,
    };
    assert_eq!(miniclock::simulator::from_calendar(&c).year.raw(), 0x00);
    c.year = 2099;
    assert_eq!(miniclock::simulator::from_calendar(&c).year.raw(), 0x99);
    c.year = 1999;
    assert_eq!(miniclock::simulator::from_calendar(&c).year.raw(), 0x95);
    c.year = 2256;
    assert_eq!(miniclock::simulator::from_calendar(&c).year.raw(), 0x00);
    c.second = 256 + 59;
    assert_eq!(miniclock::simulator::from_calendar(&c).second.raw(), 0x59);
}

#[test]
fn system_clock_reads_a_time_of_the_calendar() {
    let mut clock = miniclock::simulator::SystemClock();
    let t = match clock.read() {
        Ok(t) => t,
        Err(_) => unreachable!(),
    };
    assert!(t.hr24);
    assert!(t.day < 7);
    assert!(t.second.value() <= 59 && t.second.units() <= 9);
    assert!(t.minute.value() <= 59 && t.minute.units() <= 9);
    assert!(t.hour.value() <= 23 && t.hour.units() <= 9);
    assert!(1 <= t.date.value() && t.date.value() <= 31);
    assert!(1 <= t.month.value() && t.month.value() <= 12);
    assert!(t.year.value() >= 19);
    assert!(clock.write(&t).is_ok());
}

#[test]
fn tick_with_a_time_shows_it_and_turns_the_colon() {
    let mut a = app(vec![time(1, 1, 0, 1)], None);
    assert_eq!(a.tick(Ok(time(20, 8, 3, 22))), Ok(()));
    assert_eq!(a.redraw(), Ok(()));
    let (clock, display) = a.release();
    assert_eq!(clock.reads, 1);
    let face = face_tiles(&time(20, 8, 3, 22), true);
    let mut expected = vec![Asked::Clear];
    expected.extend(tiles_of(vec![face]));
    expected.push(Asked::Flip);
    assert_eq!(display.asked, expected);
}

#[test]
fn tick_with_an_error_hands_it_on_and_turns_the_colon() {
    let mut a = app(vec![time(1, 1, 0, 1)], None);
    assert_eq!(a.tick(Err("later")), Err("later"));
    assert_eq!(a.tick(Err("later")), Err("later"));
    assert_eq!(a.tick(Err("later")), Err("later"));
    assert_eq!(a.redraw(), Ok(()));
    let (_, display) = a.release();
    let face = face_tiles(&time(1, 1, 0, 1), true);
    let mut expected = vec![Asked::Clear];
    expected.extend(tiles_of(vec![face]));
    expected.push(Asked::Flip);
    assert_eq!(display.asked, expected);
}

#[test]
fn app_with_a_given_time_starts_without_reading() {
    let clock = Script { times: vec![], reads: 0 };
    let display = Canvas { asked: Vec::new(), fail_at: None };
    let mut a = App::with_time(clock, display, time(7, 30, 4, 2));
    assert_eq!(a.redraw(), Ok(()));
    let (clock, display) = a.release();
    assert_eq!(clock.reads, 0);
    let face = face_tiles(&time(7, 30, 4, 2), false);
    assert_eq!(display.asked.len(), face.len() + 2);
}

#[test]
fn app_from_a_reading_that_is_a_time_shows_it() {
    let clock = Script { times: vec![], reads: 0 };
    let display = Canvas { asked: Vec::new(), fail_at: None };
    let mut a = match App::from_reading(clock, display, Ok(time(7, 30, 4, 2))) {
        Ok(a) => a,
        Err(e) => panic!("could not start: {}", e),
    };
    assert_eq!(a.redraw(), Ok(()));
    let (clock, display) = a.release();
    assert_eq!(clock.reads, 0);
    let mut expected = vec![Asked::Clear];
    expected.extend(tiles_of(vec![face_tiles(&time(7, 30, 4, 2), false)]));
    expected.push(Asked::Flip);
    assert_eq!(display.asked, expected);
}

#[test]
fn app_from_a_reading_that_is_an_error_hands_it_on() {
    let clock = Script { times: vec![time(1, 1, 0, 1)], reads: 0 };
    let display = Canvas { asked: Vec::new(), fail_at: None };
    assert!(matches!(App::from_reading(clock, display, Err("dead")), Err("dead")));
}

#[test]
fn app_starts_with_the_first_reading_of_the_clock() {
    let mut a = app(vec![time(12, 34, 0, 21), time(1, 1, 1, 1)], None);
    assert_eq!(a.redraw(), Ok(()));
    let (clock, display) = a.release();
    assert_eq!(clock.reads, 1);
    assert_eq!(clock.times.len(), 1);
    let mut expected = vec![Asked::Clear];
    expected.extend(tiles_of(vec![face_tiles(&time(12, 34, 0, 21), false)]));
    expected.push(Asked::Flip);
    assert_eq!(display.asked, expected);
}
