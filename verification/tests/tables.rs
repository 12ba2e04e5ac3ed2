use miniclock::clockmain::blockfont;
use miniclock::clockmain::blockfont::Glyph;
use miniclock::clockmain::digitfont;
use miniclock::clockmain::digitfont::Digit;
use miniclock::clockmain::minifont;
use miniclock::clockmain::minifont::Command;
use miniclock::clockmain::tiles::Tile;
use miniclock::graphics::tile_get_pixel;
use miniclock::graphics::vector::Vector;
use miniclock::graphics::Tile as TileContract;
use miniclock::word::word;

fn segments(d: Digit) -> [bool; 7] {
    [d.draw_a(), d.draw_b(), d.draw_c(), d.draw_d(), d.draw_e(), d.draw_f(), d.draw_g()]
}

fn curves(d: Digit) -> [bool; 6] {
    [d.curve_ab(), d.curve_bc(), d.curve_cd(), d.curve_de(), d.curve_ef(), d.curve_fa()]
}

#[test]
fn word_puts_the_second_byte_on_top() {
    assert_eq!(word(0x73, 0xff), 0xff73);
    assert_eq!(word(0xff, 0x00), 0x00ff);
    assert_eq!(word(0x00, 0x01), 0x0100);
}

#[test]
fn filled_and_empty_tiles_are_all_or_nothing() {
    assert_eq!(Tile::filled().bits(), 0xffff);
    assert_eq!(Tile::empty().bits(), 0x0000);
}

#[test]
fn tile_table_reads_low_byte_first() {
    let expected: [u16; 16] = [
        0x0000, 0x0013, 0x008c, 0x3100, 0xcccc, 0x37ff, 0xc800, 0x3333, 0xceff, 0x00ff, 0xff73,
        0xff00, 0xffec, 0xa5a5, 0x0660, 0xffff,
    ];
    for i in 0..16 {
        assert_eq!(Tile::get_by_index(i).bits(), expected[i]);
    }
}

#[test]
fn all_prerendered_tiles_come_in_table_order() {
    let all = Tile::get_all_prerendered();
    for i in 0..16 {
        assert_eq!(all[i].bits(), Tile::get_by_index(i).bits());
    }
    assert_eq!(all[0].bits(), 0x0000);
    assert_eq!(all[15].bits(), 0xffff);
}

#[test]
fn tile_from_raw_keeps_the_pattern() {
    assert_eq!(Tile::get_raw(0x1234).bits(), 0x1234);
    assert_eq!(Tile::get_raw(0x1234).raw_pixel_data(), 0x1234);
}

#[test]
fn inverting_a_tile_turns_every_pixel_over() {
    assert_eq!(Tile::get_raw(0x008c).invert().bits(), 0xff73);
    assert_eq!(Tile::get_raw(0x0000).invert().bits(), 0xffff);
    assert_eq!(Tile::get_raw(0xa5a5).invert().invert().bits(), 0xa5a5);
}

#[test]
fn fillets_are_the_complements_of_the_corners() {
    assert_eq!(Tile::get_by_index(2).invert().bits(), Tile::get_by_index(10).bits());
    assert_eq!(Tile::get_by_index(1).invert().bits(), Tile::get_by_index(12).bits());
    assert_eq!(Tile::get_by_index(3).invert().bits(), Tile::get_by_index(8).bits());
    assert_eq!(Tile::get_by_index(6).invert().bits(), Tile::get_by_index(5).bits());
}

#[test]
fn tile_pixels_read_left_to_right_from_the_high_bit() {
    // The top left rounded corner: ..## / .### / #### / ####
    let raw = 0xff73;
    let rows = ["..##", ".###", "####", "####"];
    for y in 0..4 {
        for x in 0..4 {
            let lit = rows[y].as_bytes()[x] == b'#';
            assert_eq!(tile_get_pixel(raw, Vector(x as i32, y as i32)), lit);
        }
    }
}

#[test]
fn digit_table_entries_decode_low_byte_first() {
    let expected: [u16; 16] = [
        0x2d3f, 0x0006, 0x095b, 0x074f, 0x0066, 0x246d, 0x2c7d, 0x0107, 0x3f7f, 0x256f, 0x2177,
        0x0c7c, 0x2839, 0x0c5e, 0x0079, 0x0071,
    ];
    for v in 0..16u8 {
        assert_eq!(Digit::get(v).raw(), expected[v as usize]);
    }
}

#[test]
fn digit_get_masks_its_argument_to_four_bits() {
    for v in 0..=255u8 {
        assert_eq!(Digit::get(v).raw(), Digit::get(v & 0xf).raw());
    }
}

#[test]
fn digit_decode_is_stable() {
    for v in 0..16u8 {
        let d = Digit::get(v);
        let again = Digit::get_raw(d.raw());
        assert_eq!(segments(again), segments(d));
        assert_eq!(curves(again), curves(d));
        assert_eq!(segments(Digit::get(v)), segments(d));
        assert_eq!(d.raw() & !0x3f7f, 0);
    }
}

#[test]
fn digit_one_is_b_and_c_without_curves() {
    let one = Digit::get(1);
    assert_eq!(segments(one), [false, true, true, false, false, false, false]);
    assert_eq!(curves(one), [false; 6]);
    assert!(one.is_one());
}

#[test]
fn only_the_digit_one_is_one() {
    for v in 0..16u8 {
        assert_eq!(Digit::get(v).is_one(), v == 1);
    }
    assert!(Digit::get_raw(0x0006).is_one());
    assert!(!Digit::get_raw(0x0106).is_one());
    assert!(!Digit::get_raw(0x0007).is_one());
}

#[test]
fn digit_eight_lights_and_rounds_everything() {
    let eight = Digit::get(8);
    assert_eq!(segments(eight), [true; 7]);
    assert_eq!(curves(eight), [true; 6]);
}

#[test]
fn digit_seven_segment_shapes() {
    assert_eq!(segments(Digit::get(0)), [true, true, true, true, true, true, false]);
    assert_eq!(segments(Digit::get(2)), [true, true, false, true, true, false, true]);
    assert_eq!(segments(Digit::get(4)), [false, true, true, false, false, true, true]);
    assert_eq!(segments(Digit::get(7)), [true, true, true, false, false, false, false]);
    assert_eq!(segments(Digit::get(0xf)), [true, false, false, false, true, true, true]);
}

#[test]
fn digit_queries_test_single_bits() {
    for bit in 0..16 {
        let d = Digit::get_raw(1 << bit);
        let seg = segments(d);
        let cur = curves(d);
        for i in 0..7 {
            assert_eq!(seg[i], bit == i);
        }
        for i in 0..6 {
            assert_eq!(cur[i], bit == i + 8);
        }
    }
}

#[test]
fn digit_ascii_maps_digits_and_lower_case_hex() {
    assert_eq!(digitfont::map_ascii_code('0'), 0);
    assert_eq!(digitfont::map_ascii_code('9'), 9);
    assert_eq!(digitfont::map_ascii_code('a'), 10);
    assert_eq!(digitfont::map_ascii_code('f'), 15);
    assert_eq!(digitfont::map_ascii_code('g'), 0);
    assert_eq!(digitfont::map_ascii_code('A'), 0);
    assert_eq!(digitfont::map_ascii_code(' '), 0);
    assert_eq!(digitfont::map_ascii_code('\u{1f600}'), 0);
    assert_eq!(Digit::get_ascii('7').raw(), Digit::get(7).raw());
    assert_eq!(Digit::get_ascii('c').raw(), Digit::get(12).raw());
    assert_eq!(Digit::get_ascii('x').raw(), Digit::get(0).raw());
}

#[test]
fn block_font_numbers_glyphs_range_by_range() {
    assert_eq!(blockfont::map_ascii_code(' '), 0);
    assert_eq!(blockfont::map_ascii_code('0'), 1);
    assert_eq!(blockfont::map_ascii_code('9'), 10);
    assert_eq!(blockfont::map_ascii_code('A'), 11);
    assert_eq!(blockfont::map_ascii_code('Z'), 36);
    assert_eq!(blockfont::map_ascii_code('\u{7b}'), 37);
    assert_eq!(blockfont::map_ascii_code('\u{7f}'), 41);
}

#[test]
fn block_font_falls_back_to_the_placeholder() {
    for ch in ['\u{0}', '!', '/', ':', '@', '[', 'a', 'z', '\u{80}', '\u{ff}', '\u{10ffff}'] {
        assert_eq!(blockfont::map_ascii_code(ch), 41);
    }
}

#[test]
fn block_font_index_stays_in_the_table_for_every_byte() {
    for b in 0..=255u8 {
        assert!((blockfont::map_ascii_code(b as char) as usize) < 42);
    }
}

#[test]
fn glyph_tile_indices_of_letter_m() {
    let g = Glyph::get('M');
    let expected = [
        [15, 0, 0, 0, 15, 0],
        [15, 15, 0, 15, 15, 0],
        [15, 0, 15, 0, 15, 0],
        [15, 0, 0, 0, 15, 0],
        [15, 0, 0, 0, 15, 0],
    ];
    for ty in 0..5 {
        for tx in 0..6 {
            assert_eq!(g.get_tile_idx(tx as i32, ty as i32), expected[ty][tx]);
        }
    }
}

#[test]
fn glyph_tile_indices_use_rounded_corners() {
    // The "th" ligature: column 3 of the top row ends the bar of the t.
    let g = Glyph::get('\u{7b}');
    let top = [15, 15, 15, 12, 0, 15];
    for tx in 0..6 {
        assert_eq!(g.get_tile_idx(tx as i32, 0), top[tx]);
    }
}

#[test]
fn glyph_by_character_and_by_index_agree() {
    let a = Glyph::get('1');
    let b = Glyph::get_idx(2);
    for ty in 0..5 {
        for tx in 0..6 {
            assert_eq!(a.get_tile_idx(tx, ty), b.get_tile_idx(tx, ty));
        }
    }
    assert_eq!(a.get_tile_idx(2, 0), 15);
    assert_eq!(a.get_tile_idx(1, 0), 0);
    assert_eq!(a.get_tile_idx(3, 4), 15);
}

#[test]
fn space_glyph_is_empty() {
    let g = Glyph::get(' ');
    for ty in 0..5 {
        for tx in 0..6 {
            assert_eq!(g.get_tile_idx(tx, ty), 0);
        }
    }
}

#[test]
fn mini_font_orders_letters_digits_space_and_ligatures() {
    assert_eq!(minifont::map_ascii_code(b'A'), 0);
    assert_eq!(minifont::map_ascii_code(b'Z'), 25);
    assert_eq!(minifont::map_ascii_code(b'0'), 26);
    assert_eq!(minifont::map_ascii_code(b'9'), 35);
    assert_eq!(minifont::map_ascii_code(b' '), 36);
    assert_eq!(minifont::map_ascii_code(b'!'), 37);
    assert_eq!(minifont::map_ascii_code(0x7b), 38);
    assert_eq!(minifont::map_ascii_code(0x7f), 42);
}

#[test]
fn mini_font_falls_back_to_the_placeholder() {
    for ch in [0x00u8, 0x1f, 0x22, 0x2f, 0x3a, 0x40, 0x5b, b'a', 0x7a, 0x80, 0xff] {
        assert_eq!(minifont::map_ascii_code(ch), 127);
    }
}

#[test]
fn mini_font_commands_come_from_the_descriptor() {
    assert_eq!(minifont::commands_for_character(b'A'), vec![0x51, 0x33, 0x51, 0x01]);
    assert_eq!(minifont::commands_for_character(b'L'), vec![0x55, 0x01]);
    assert_eq!(minifont::commands_for_character(b'1'), vec![0x01, 0x53, 0x01]);
    assert_eq!(minifont::commands_for_character(b' '), vec![0x03]);
    assert_eq!(
        minifont::commands_for_character(0x7b),
        vec![0x11, 0x51, 0x11, 0x51, 0x31, 0x51, 0x01]
    );
}

#[test]
fn mini_font_placeholder_commands_stand_in_for_unmapped_bytes() {
    assert_eq!(minifont::commands_for_character(b'a'), vec![0x53, 0x01]);
    assert_eq!(minifont::commands_for_character(0x00), vec![0x53, 0x01]);
    assert_eq!(minifont::commands_for_character(0xff), vec![0x53, 0x01]);
}

#[test]
fn mini_font_commands_are_short() {
    for ch in 0..=255u8 {
        assert!(minifont::commands_for_character(ch).len() <= 7);
    }
}

#[test]
fn command_byte_is_height_over_width() {
    assert_eq!(minifont::decode_command(0x32), Command::Rect { w: 2, h: 3 });
    assert_eq!(minifont::decode_command(0x0f), Command::Rect { w: 15, h: 0 });
    assert_eq!(minifont::decode_command(0xf1), Command::Rect { w: 1, h: 15 });
}

#[test]
fn command_with_width_zero_is_a_skip() {
    assert_eq!(minifont::decode_command(0x10), Command::Skip(1));
    assert_eq!(minifont::decode_command(0x00), Command::Skip(0));
    assert_eq!(minifont::decode_command(0xf0), Command::Skip(15));
}
