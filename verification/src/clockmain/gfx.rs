//! Drawing the clock face, tile by tile.
//!
//! Each routine first lists the tiles it is going to place and then hands
//! them to the display in that order, giving up at the first one the display
//! refuses.

use crate::clockmain::blockfont::glyph_bytes;
use crate::clockmain::blockfont::glyph_index;
use crate::clockmain::blockfont::tile_index;
use crate::clockmain::blockfont::Glyph;
use crate::clockmain::digitfont::lit;
use crate::clockmain::digitfont::Digit;
use crate::clockmain::digitfont::A;
use crate::clockmain::digitfont::AB;
use crate::clockmain::digitfont::B;
use crate::clockmain::digitfont::BC;
use crate::clockmain::digitfont::C;
use crate::clockmain::digitfont::CD;
use crate::clockmain::digitfont::D;
use crate::clockmain::digitfont::DE;
use crate::clockmain::digitfont::E;
use crate::clockmain::digitfont::EF;
use crate::clockmain::digitfont::F;
use crate::clockmain::digitfont::FA;
use crate::clockmain::digitfont::G;
use crate::clockmain::minifont::commands_for_character;
use crate::clockmain::minifont::commands_of;
use crate::clockmain::minifont::data::MAX_COMMANDS;
use crate::clockmain::minifont::decode_command;
use crate::clockmain::minifont::decoded;
use crate::clockmain::minifont::Command;
use crate::clockmain::tiles::prerendered;
use crate::clockmain::tiles::Tile;
use crate::clockmain::tiles::FILLED;
use crate::graphics::vector::fits_i32;
use crate::graphics::vector::Rect;
use crate::graphics::vector::Vector;
use crate::graphics::Display;
use crate::graphics::Request;
use crate::record::carried_out;
use crate::record::failure_of;
use crate::record::lemma_carried_out_cut;
use crate::record::lemma_carried_out_nothing;
use crate::record::lemma_carried_out_one;
use crate::record::lemma_carried_out_then;
use vstd::prelude::*;

verus! {

/// A tile pattern and the tile position it goes to.
#[derive(Clone, Copy, Debug)]
pub struct Placement {
    pub pixels: u16,
    pub pos: Vector,
}

/// The pattern `pixels` placed `x` tiles right of and `y` tiles below `ofs`.
pub open spec fn put(ofs: Vector, pixels: u16, x: int, y: int) -> Placement {
    Placement { pixels, pos: Vector((ofs.0 + x) as i32, (ofs.1 + y) as i32) }
}

/// Two filled tiles.
pub open spec fn pair(ofs: Vector, x1: int, y1: int, x2: int, y2: int) -> Seq<Placement> {
    seq![put(ofs, FILLED, x1, y1), put(ofs, FILLED, x2, y2)]
}

/// `tiles` where `on` holds, nothing where it does not.
pub open spec fn only_if(on: bool, tiles: Seq<Placement>) -> Seq<Placement> {
    if on {
        tiles
    } else {
        Seq::empty()
    }
}

/// The requests that placing `tiles` in order makes of a display.
pub open spec fn tile_requests(tiles: Seq<Placement>) -> Seq<Request> {
    Seq::new(tiles.len(), |i: int| Request::Tile { pixels: tiles[i].pixels, pos: tiles[i].pos })
}

/// Column `x` of the three horizontal segments: a in the rows 0 and 1, d in
/// the rows 14 and 15, g in the rows 7 and 8.
pub open spec fn horizontal_slice(d: u16, ofs: Vector, x: int) -> Seq<Placement> {
    only_if(lit(d, A), pair(ofs, x, 0, x, 1)) + only_if(lit(d, D), pair(ofs, x, 14, x, 15)) + only_if(
        lit(d, G),
        pair(ofs, x, 7, x, 8),
    )
}

/// Row `y` of the two upper vertical segments: b in the columns 6 and 7, f in
/// the columns 0 and 1.
pub open spec fn upper_slice(d: u16, ofs: Vector, y: int) -> Seq<Placement> {
    only_if(lit(d, B), pair(ofs, 6, y, 7, y)) + only_if(lit(d, F), pair(ofs, 0, y, 1, y))
}

/// Row `y` of the two lower vertical segments: c in the columns 6 and 7, e in
/// the columns 0 and 1.
pub open spec fn lower_slice(d: u16, ofs: Vector, y: int) -> Seq<Placement> {
    only_if(lit(d, C), pair(ofs, 6, y, 7, y)) + only_if(lit(d, E), pair(ofs, 0, y, 1, y))
}

/// The horizontal segments over the columns from 2 up to, not including,
/// `end`.
pub open spec fn horizontal_run(d: u16, ofs: Vector, end: int) -> Seq<Placement>
    decreases end,
{
    if end <= 2 {
        Seq::empty()
    } else {
        horizontal_run(d, ofs, end - 1) + horizontal_slice(d, ofs, end - 1)
    }
}

/// The upper vertical segments over the rows from 2 up to, not including,
/// `end`.
pub open spec fn upper_run(d: u16, ofs: Vector, end: int) -> Seq<Placement>
    decreases end,
{
    if end <= 2 {
        Seq::empty()
    } else {
        upper_run(d, ofs, end - 1) + upper_slice(d, ofs, end - 1)
    }
}

/// The lower vertical segments over the rows from 9 up to, not including,
/// `end`.
pub open spec fn lower_run(d: u16, ofs: Vector, end: int) -> Seq<Placement>
    decreases end,
{
    if end <= 9 {
        Seq::empty()
    } else {
        lower_run(d, ofs, end - 1) + lower_slice(d, ofs, end - 1)
    }
}

/// The straight runs of the seven segments: the horizontal ones over the
/// columns 2 to 5, the upper vertical ones over the rows 2 to 6, the lower
/// vertical ones over the rows 9 to 13.
pub open spec fn segment_runs(d: u16, ofs: Vector) -> Seq<Placement> {
    horizontal_run(d, ofs, 6) + upper_run(d, ofs, 7) + lower_run(d, ofs, 14)
}

/// One of the four outer corners of the cell, a block of 2×2 tiles. Where
/// the corner is rounded its outermost tile at (`cx`, `cy`) is the block
/// `corner` and the fillet `dot` goes diagonally inwards at (`dx`, `dy`);
/// where it is square that tile is filled. The three tiles at
/// (`ix`, `cy`), (`cx`, `iy`) and (`ix`, `iy`) are filled either way.
pub open spec fn outer_corner(
    round: bool,
    ofs: Vector,
    corner: int,
    cx: int,
    cy: int,
    dot: int,
    dx: int,
    dy: int,
    ix: int,
    iy: int,
) -> Seq<Placement> {
    (if round {
        seq![put(ofs, prerendered(corner), cx, cy), put(ofs, prerendered(dot), dx, dy)]
    } else {
        seq![put(ofs, FILLED, cx, cy)]
    }) + seq![put(ofs, FILLED, ix, cy), put(ofs, FILLED, cx, iy), put(ofs, FILLED, ix, iy)]
}

/// The joint in the middle of one side, where an upper and a lower vertical
/// segment meet the bar g: the rows 7 and 8 of the outer column `ox` and of
/// the inner column `ix`. Where it is rounded, the end of a segment that
/// stands alone is rounded off with `round_bottom` or `round_top`, a notch is
/// cut between two that meet, and the fillets `dots` follow.
pub open spec fn side_joint(
    upper: bool,
    lower: bool,
    round: bool,
    ofs: Vector,
    ox: int,
    ix: int,
    round_top: int,
    round_bottom: int,
    dots: Seq<Placement>,
) -> Seq<Placement> {
    (if round {
        (if upper && lower {
            seq![
                put(ofs, prerendered(round_bottom), ox, 7),
                put(ofs, prerendered(round_top), ox, 8),
            ]
        } else if upper {
            seq![put(ofs, FILLED, ox, 7), put(ofs, prerendered(round_bottom), ox, 8)]
        } else {
            seq![put(ofs, prerendered(round_top), ox, 7), put(ofs, FILLED, ox, 8)]
        }) + dots
    } else {
        seq![put(ofs, FILLED, ox, 7), put(ofs, FILLED, ox, 8)]
    }) + seq![put(ofs, FILLED, ix, 7), put(ofs, FILLED, ix, 8)]
}

/// The fillets of a side joint: the block `first` in row `first_y` where
/// `first_on` holds, then the block `second` in row `second_y` where
/// `second_on` holds, both in column `dx`.
pub open spec fn joint_dots(
    ofs: Vector,
    dx: int,
    first_on: bool,
    first: int,
    first_y: int,
    second_on: bool,
    second: int,
    second_y: int,
) -> Seq<Placement> {
    only_if(first_on, seq![put(ofs, prerendered(first), dx, first_y)]) + only_if(
        second_on,
        seq![put(ofs, prerendered(second), dx, second_y)],
    )
}

/// The six places where two segments meet, each drawn where at least one of
/// its two segments is lit: top left, top right, bottom right, bottom left,
/// middle right, middle left.
pub open spec fn corners(d: u16, ofs: Vector) -> Seq<Placement> {
    only_if(lit(d, F) || lit(d, A), outer_corner(lit(d, FA), ofs, 10, 0, 0, 2, 2, 2, 1, 1)) + only_if(
        lit(d, A) || lit(d, B),
        outer_corner(lit(d, AB), ofs, 12, 7, 0, 1, 5, 2, 6, 1),
    ) + only_if(lit(d, C) || lit(d, D), outer_corner(lit(d, CD), ofs, 8, 7, 15, 3, 5, 13, 6, 14)) + only_if(
        lit(d, D) || lit(d, E),
        outer_corner(lit(d, DE), ofs, 5, 0, 15, 6, 2, 13, 1, 14),
    ) + only_if(
        lit(d, B) || lit(d, C),
        side_joint(
            lit(d, B),
            lit(d, C),
            lit(d, BC),
            ofs,
            7,
            6,
            12,
            8,
            joint_dots(ofs, 5, lit(d, B), 3, 6, lit(d, C), 1, 9),
        ),
    ) + only_if(
        lit(d, E) || lit(d, F),
        side_joint(
            lit(d, F),
            lit(d, E),
            lit(d, EF),
            ofs,
            0,
            1,
            10,
            5,
            joint_dots(ofs, 2, lit(d, E), 2, 9, lit(d, F), 6, 6),
        ),
    )
}

/// The small flag at the top of the digit one.
pub open spec fn serif(d: u16, ofs: Vector) -> Seq<Placement> {
    only_if(
        d == B | C,
        seq![
            put(ofs, prerendered(10), 5, 0),
            put(ofs, prerendered(10), 4, 1),
            put(ofs, FILLED, 5, 1),
        ],
    )
}

/// Every tile of the big digit `d` in the cell of 8×16 tiles whose top left
/// tile is `ofs`, in the order in which they are drawn.
pub open spec fn big_digit(d: u16, ofs: Vector) -> Seq<Placement> {
    segment_runs(d, ofs) + corners(d, ofs) + serif(d, ofs)
}

/// The two dots of the colon, each 2×2 tiles with rounded corners: the
/// complements of the four fillets, in the rows 5 and 6 and in the rows 9
/// and 10 of the two columns that start at `ofs`.
pub open spec fn colon(ofs: Vector) -> Seq<Placement> {
    seq![
        put(ofs, !prerendered(2), 0, 5),
        put(ofs, !prerendered(2), 0, 9),
        put(ofs, !prerendered(1), 1, 5),
        put(ofs, !prerendered(1), 1, 9),
        put(ofs, !prerendered(6), 0, 6),
        put(ofs, !prerendered(6), 0, 10),
        put(ofs, !prerendered(3), 1, 6),
        put(ofs, !prerendered(3), 1, 10),
    ]
}

/// The tiles of the first `n` cells of a glyph, row by row from the top left.
/// A cell whose tile is the empty one is left out.
pub open spec fn block_cells(bytes: Seq<u8>, ofs: Vector, n: int) -> Seq<Placement>
    decreases n,
{
    if n <= 0 {
        Seq::empty()
    } else {
        let tx = (n - 1) % 6;
        let ty = (n - 1) / 6;
        let idx = tile_index(bytes, tx, ty);
        block_cells(bytes, ofs, n - 1) + only_if(
            idx != 0,
            seq![put(ofs, prerendered(idx as int), tx, ty)],
        )
    }
}

/// The tiles of the glyph of `ch` in the cell of 6×5 tiles at `ofs`.
pub open spec fn block_char(ch: u8, ofs: Vector) -> Seq<Placement> {
    block_cells(glyph_bytes(glyph_index(ch as int)), ofs, 30)
}

/// The tiles of the characters of `text`, each in the cell of 6×5 tiles to
/// the right of the one before, the first at `ofs`.
pub open spec fn block_text(text: Seq<u8>, ofs: Vector) -> Seq<Placement>
    decreases text.len(),
{
    if text.len() == 0 {
        Seq::empty()
    } else {
        block_text(text.drop_last(), ofs) + block_char(
            text.last(),
            Vector((ofs.0 + 6 * (text.len() - 1)) as i32, ofs.1),
        )
    }
}

/// The point `dx` to the right of and `dy` below `at`.
pub open spec fn moved(at: Vector, dx: int, dy: int) -> Vector {
    Vector((at.0 + dx) as i32, (at.1 + dy) as i32)
}

/// What the commands `cmds` do to a cursor that starts at `cursor`: the
/// rectangles they fill, in order, and where they leave the cursor. A
/// rectangle is filled with the cursor at its top left and moves the cursor
/// right by its width; a skip moves the cursor down.
pub open spec fn run_commands(cmds: Seq<u8>, cursor: Vector) -> (Seq<Rect>, Vector)
    decreases cmds.len(),
{
    if cmds.len() == 0 {
        (Seq::empty(), cursor)
    } else {
        let (fills, at) = run_commands(cmds.drop_last(), cursor);
        match decoded(cmds.last()) {
            Command::Rect { w, h } => (
                fills.push(Rect { start: at, end: moved(at, w as int, h as int) }),
                moved(at, w as int, 0),
            ),
            Command::Skip(h) => (fills, moved(at, 0, h as int)),
        }
    }
}

/// What the commands of the characters of `text` do, one character after the
/// other, to a cursor that starts at `cursor`.
pub open spec fn run_text(text: Seq<u8>, cursor: Vector) -> (Seq<Rect>, Vector)
    decreases text.len(),
{
    if text.len() == 0 {
        (Seq::empty(), cursor)
    } else {
        let (fills, at) = run_text(text.drop_last(), cursor);
        let (more, end) = run_commands(commands_of(text.last()), at);
        (fills + more, end)
    }
}

/// The requests that filling `rects` in order makes of a display.
pub open spec fn fill_requests(rects: Seq<Rect>) -> Seq<Request> {
    Seq::new(rects.len(), |i: int| Request::Fill { rect: rects[i] })
}

/// Can a cursor that starts at `cursor` be moved by `n` commands without
/// leaving the coordinates that an `i32` can hold? A command moves it by 15
/// at most.
pub open spec fn commands_fit(cursor: Vector, n: int) -> bool {
    fits_i32(cursor.0 + 15 * n) && fits_i32(cursor.1 + 15 * n)
}

/// Can a cell of `w`×`h` tiles start at `ofs` without leaving the
/// coordinates that an `i32` can hold?
pub open spec fn cell_fits(ofs: Vector, w: int, h: int) -> bool {
    fits_i32(ofs.0 + w - 1) && fits_i32(ofs.1 + h - 1)
}

fn push_tile(out: &mut Vec<Placement>, ofs: Vector, pixels: u16, x: i32, y: i32)
    requires
        0 <= x,
        0 <= y,
        fits_i32(ofs.0 + x),
        fits_i32(ofs.1 + y),
    ensures
        final(out)@ == old(out)@.push(put(ofs, pixels, x as int, y as int)),
{
    out.push(Placement { pixels: pixels, pos: ofs + Vector(x, y) });
}

fn push_pair(out: &mut Vec<Placement>, on: bool, ofs: Vector, x1: i32, y1: i32, x2: i32, y2: i32)
    requires
        0 <= x1 < 8,
        0 <= x2 < 8,
        0 <= y1 < 16,
        0 <= y2 < 16,
        cell_fits(ofs, 8, 16),
    ensures
        final(out)@ == old(out)@ + only_if(
            on,
            pair(ofs, x1 as int, y1 as int, x2 as int, y2 as int),
        ),
{
    if on {
        push_tile(out, ofs, FILLED, x1, y1);
        push_tile(out, ofs, FILLED, x2, y2);
    }
    assert(out@ =~= old(out)@ + only_if(on, pair(ofs, x1 as int, y1 as int, x2 as int, y2 as int)));
}

fn push_horizontal_slice(out: &mut Vec<Placement>, d: Digit, ofs: Vector, x: i32)
    requires
        0 <= x < 8,
        cell_fits(ofs, 8, 16),
    ensures
        final(out)@ == old(out)@ + horizontal_slice(d@, ofs, x as int),
{
    push_pair(out, d.draw_a(), ofs, x, 0, x, 1);
    push_pair(out, d.draw_d(), ofs, x, 14, x, 15);
    push_pair(out, d.draw_g(), ofs, x, 7, x, 8);
    assert(out@ =~= old(out)@ + horizontal_slice(d@, ofs, x as int));
}

fn push_upper_slice(out: &mut Vec<Placement>, d: Digit, ofs: Vector, y: i32)
    requires
        0 <= y < 16,
        cell_fits(ofs, 8, 16),
    ensures
        final(out)@ == old(out)@ + upper_slice(d@, ofs, y as int),
{
    push_pair(out, d.draw_b(), ofs, 6, y, 7, y);
    push_pair(out, d.draw_f(), ofs, 0, y, 1, y);
    assert(out@ =~= old(out)@ + upper_slice(d@, ofs, y as int));
}

fn push_lower_slice(out: &mut Vec<Placement>, d: Digit, ofs: Vector, y: i32)
    requires
        0 <= y < 16,
        cell_fits(ofs, 8, 16),
    ensures
        final(out)@ == old(out)@ + lower_slice(d@, ofs, y as int),
{
    push_pair(out, d.draw_c(), ofs, 6, y, 7, y);
    push_pair(out, d.draw_e(), ofs, 0, y, 1, y);
    assert(out@ =~= old(out)@ + lower_slice(d@, ofs, y as int));
}

fn push_segment_runs(out: &mut Vec<Placement>, d: Digit, ofs: Vector)
    requires
        cell_fits(ofs, 8, 16),
    ensures
        final(out)@ == old(out)@ + segment_runs(d@, ofs),
{
    let mut x: i32 = 2;
    assert(out@ =~= old(out)@ + horizontal_run(d@, ofs, 2));
    while x < 6
        invariant
            2 <= x <= 6,
            cell_fits(ofs, 8, 16),
            out@ == old(out)@ + horizontal_run(d@, ofs, x as int),
        decreases 6 - x,
    {
        push_horizontal_slice(out, d, ofs, x);
        x += 1;
        assert(out@ =~= old(out)@ + horizontal_run(d@, ofs, x as int));
    }
    let ghost across = out@;
    let mut y: i32 = 2;
    assert(out@ =~= across + upper_run(d@, ofs, 2));
    while y < 7
        invariant
            2 <= y <= 7,
            cell_fits(ofs, 8, 16),
            out@ == across + upper_run(d@, ofs, y as int),
        decreases 7 - y,
    {
        push_upper_slice(out, d, ofs, y);
        y += 1;
        assert(out@ =~= across + upper_run(d@, ofs, y as int));
    }
    let ghost upper = out@;
    let mut y: i32 = 9;
    assert(out@ =~= upper + lower_run(d@, ofs, 9));
    while y < 14
        invariant
            9 <= y <= 14,
            cell_fits(ofs, 8, 16),
            out@ == upper + lower_run(d@, ofs, y as int),
        decreases 14 - y,
    {
        push_lower_slice(out, d, ofs, y);
        y += 1;
        assert(out@ =~= upper + lower_run(d@, ofs, y as int));
    }
    assert(out@ =~= old(out)@ + segment_runs(d@, ofs));
}

fn push_outer_corner(
    out: &mut Vec<Placement>,
    round: bool,
    ofs: Vector,
    corner: usize,
    cx: i32,
    cy: i32,
    dot: usize,
    dx: i32,
    dy: i32,
    ix: i32,
    iy: i32,
)
    requires
        corner < 16,
        dot < 16,
        0 <= cx < 8,
        0 <= dx < 8,
        0 <= ix < 8,
        0 <= cy < 16,
        0 <= dy < 16,
        0 <= iy < 16,
        cell_fits(ofs, 8, 16),
    ensures
        final(out)@ == old(out)@ + outer_corner(
            round,
            ofs,
            corner as int,
            cx as int,
            cy as int,
            dot as int,
            dx as int,
            dy as int,
            ix as int,
            iy as int,
        ),
{
    if round {
        push_tile(out, ofs, Tile::get_by_index(corner).bits(), cx, cy);
        push_tile(out, ofs, Tile::get_by_index(dot).bits(), dx, dy);
    } else {
        push_tile(out, ofs, FILLED, cx, cy);
    }
    push_tile(out, ofs, FILLED, ix, cy);
    push_tile(out, ofs, FILLED, cx, iy);
    push_tile(out, ofs, FILLED, ix, iy);
    assert(out@ =~= old(out)@ + outer_corner(
        round,
        ofs,
        corner as int,
        cx as int,
        cy as int,
        dot as int,
        dx as int,
        dy as int,
        ix as int,
        iy as int,
    ));
}

fn push_side_joint(
    out: &mut Vec<Placement>,
    upper: bool,
    lower: bool,
    round: bool,
    ofs: Vector,
    ox: i32,
    ix: i32,
    round_top: usize,
    round_bottom: usize,
    dx: i32,
    first_on: bool,
    first: usize,
    first_y: i32,
    second_on: bool,
    second: usize,
    second_y: i32,
)
    requires
        round_top < 16,
        round_bottom < 16,
        first < 16,
        second < 16,
        0 <= ox < 8,
        0 <= ix < 8,
        0 <= dx < 8,
        0 <= first_y < 16,
        0 <= second_y < 16,
        cell_fits(ofs, 8, 16),
    ensures
        final(out)@ == old(out)@ + side_joint(
            upper,
            lower,
            round,
            ofs,
            ox as int,
            ix as int,
            round_top as int,
            round_bottom as int,
            joint_dots(
                ofs,
                dx as int,
                first_on,
                first as int,
                first_y as int,
                second_on,
                second as int,
                second_y as int,
            ),
        ),
{
    if round {
        let top = Tile::get_by_index(round_top).bits();
        let bottom = Tile::get_by_index(round_bottom).bits();
        if upper && lower {
            push_tile(out, ofs, bottom, ox, 7);
            push_tile(out, ofs, top, ox, 8);
        } else if upper {
            push_tile(out, ofs, FILLED, ox, 7);
            push_tile(out, ofs, bottom, ox, 8);
        } else {
            push_tile(out, ofs, top, ox, 7);
            push_tile(out, ofs, FILLED, ox, 8);
        }
        if first_on {
            push_tile(out, ofs, Tile::get_by_index(first).bits(), dx, first_y);
        }
        if second_on {
            push_tile(out, ofs, Tile::get_by_index(second).bits(), dx, second_y);
        }
    } else {
        push_tile(out, ofs, FILLED, ox, 7);
        push_tile(out, ofs, FILLED, ox, 8);
    }
    push_tile(out, ofs, FILLED, ix, 7);
    push_tile(out, ofs, FILLED, ix, 8);
    assert(out@ =~= old(out)@ + side_joint(
        upper,
        lower,
        round,
        ofs,
        ox as int,
        ix as int,
        round_top as int,
        round_bottom as int,
        joint_dots(
            ofs,
            dx as int,
            first_on,
            first as int,
            first_y as int,
            second_on,
            second as int,
            second_y as int,
        ),
    ));
}

proof fn lemma_concat_assoc(a: Seq<Placement>, b: Seq<Placement>, c: Seq<Placement>)
    ensures
        (a + b) + c == a + (b + c),
{
    assert((a + b) + c =~= a + (b + c));
}

fn push_corners(out: &mut Vec<Placement>, d: Digit, ofs: Vector)
    requires
        cell_fits(ofs, 8, 16),
    ensures
        final(out)@ == old(out)@ + corners(d@, ofs),
{
    let ghost fa = only_if(lit(d@, F) || lit(d@, A), outer_corner(lit(d@, FA), ofs, 10, 0, 0, 2, 2, 2, 1, 1));
    let ghost ab = only_if(lit(d@, A) || lit(d@, B), outer_corner(lit(d@, AB), ofs, 12, 7, 0, 1, 5, 2, 6, 1));
    let ghost cd = only_if(
        lit(d@, C) || lit(d@, D),
        outer_corner(lit(d@, CD), ofs, 8, 7, 15, 3, 5, 13, 6, 14),
    );
    let ghost de = only_if(
        lit(d@, D) || lit(d@, E),
        outer_corner(lit(d@, DE), ofs, 5, 0, 15, 6, 2, 13, 1, 14),
    );
    let ghost bc = only_if(
        lit(d@, B) || lit(d@, C),
        side_joint(
            lit(d@, B),
            lit(d@, C),
            lit(d@, BC),
            ofs,
            7,
            6,
            12,
            8,
            joint_dots(ofs, 5, lit(d@, B), 3, 6, lit(d@, C), 1, 9),
        ),
    );
    let ghost ef = only_if(
        lit(d@, E) || lit(d@, F),
        side_joint(
            lit(d@, F),
            lit(d@, E),
            lit(d@, EF),
            ofs,
            0,
            1,
            10,
            5,
            joint_dots(ofs, 2, lit(d@, E), 2, 9, lit(d@, F), 6, 6),
        ),
    );
    let ghost start = out@;
    if d.draw_f() || d.draw_a() {
        push_outer_corner(out, d.curve_fa(), ofs, 10, 0, 0, 2, 2, 2, 1, 1);
    }
    assert(out@ =~= start + fa);
    if d.draw_a() || d.draw_b() {
        push_outer_corner(out, d.curve_ab(), ofs, 12, 7, 0, 1, 5, 2, 6, 1);
    }
    assert(out@ =~= start + fa + ab);
    if d.draw_c() || d.draw_d() {
        push_outer_corner(out, d.curve_cd(), ofs, 8, 7, 15, 3, 5, 13, 6, 14);
    }
    assert(out@ =~= start + fa + ab + cd);
    if d.draw_d() || d.draw_e() {
        push_outer_corner(out, d.curve_de(), ofs, 5, 0, 15, 6, 2, 13, 1, 14);
    }
    assert(out@ =~= start + fa + ab + cd + de);
    if d.draw_b() || d.draw_c() {
        push_side_joint(
            out,
            d.draw_b(),
            d.draw_c(),
            d.curve_bc(),
            ofs,
            7,
            6,
            12,
            8,
            5,
            d.draw_b(),
            3,
            6,
            d.draw_c(),
            1,
            9,
        );
    }
    assert(out@ =~= start + fa + ab + cd + de + bc);
    if d.draw_e() || d.draw_f() {
        push_side_joint(
            out,
            d.draw_f(),
            d.draw_e(),
            d.curve_ef(),
            ofs,
            0,
            1,
            10,
            5,
            2,
            d.draw_e(),
            2,
            9,
            d.draw_f(),
            6,
            6,
        );
    }
    assert(out@ =~= start + fa + ab + cd + de + bc + ef);
    proof {
        lemma_concat_assoc(start, fa, ab);
        lemma_concat_assoc(start, fa + ab, cd);
        lemma_concat_assoc(start, fa + ab + cd, de);
        lemma_concat_assoc(start, fa + ab + cd + de, bc);
        lemma_concat_assoc(start, fa + ab + cd + de + bc, ef);
        assert(corners(d@, ofs) == fa + ab + cd + de + bc + ef);
    }
}

fn push_serif(out: &mut Vec<Placement>, d: Digit, ofs: Vector)
    requires
        cell_fits(ofs, 8, 16),
    ensures
        final(out)@ == old(out)@ + serif(d@, ofs),
{
    if d.is_one() {
        let diag = Tile::get_by_index(10).bits();
        push_tile(out, ofs, diag, 5, 0);
        push_tile(out, ofs, diag, 4, 1);
        push_tile(out, ofs, FILLED, 5, 1);
    }
    assert(out@ =~= old(out)@ + serif(d@, ofs));
}

/// The tiles of the big digit `digit` in the cell whose top left tile is
/// `top_left`, in drawing order.
pub fn big_digit_tiles(digit: Digit, top_left: Vector) -> (tiles: Vec<Placement>)
    requires
        cell_fits(top_left, 8, 16),
    ensures
        tiles@ == big_digit(digit@, top_left),
{
    let mut out: Vec<Placement> = Vec::new();
    push_segment_runs(&mut out, digit, top_left);
    push_corners(&mut out, digit, top_left);
    push_serif(&mut out, digit, top_left);
    assert(out@ =~= big_digit(digit@, top_left));
    out
}

/// Is the tile position `pos` within the cell of `w`×`h` tiles at `ofs`?
pub open spec fn in_cell(pos: Vector, ofs: Vector, w: int, h: int) -> bool {
    ofs.0 <= pos.0 < ofs.0 + w && ofs.1 <= pos.1 < ofs.1 + h
}

/// Do all of `tiles` lie in the cell of 8×16 tiles at `ofs`?
pub open spec fn all_in_cell(tiles: Seq<Placement>, ofs: Vector) -> bool {
    forall|i: int| 0 <= i < tiles.len() ==> in_cell(#[trigger] tiles[i].pos, ofs, 8, 16)
}

proof fn lemma_both_in_cell(a: Seq<Placement>, b: Seq<Placement>, ofs: Vector)
    requires
        all_in_cell(a, ofs),
        all_in_cell(b, ofs),
    ensures
        all_in_cell(a + b, ofs),
{
    assert forall|i: int| 0 <= i < (a + b).len() implies in_cell(
        #[trigger] (a + b)[i].pos,
        ofs,
        8,
        16,
    ) by {
        if i < a.len() {
            assert((a + b)[i] == a[i]);
        } else {
            assert((a + b)[i] == b[i - a.len()]);
        }
    }
}

proof fn lemma_horizontal_run_in_cell(d: u16, ofs: Vector, end: int)
    requires
        cell_fits(ofs, 8, 16),
        end <= 6,
    ensures
        all_in_cell(horizontal_run(d, ofs, end), ofs),
    decreases end,
{
    if end > 2 {
        lemma_horizontal_run_in_cell(d, ofs, end - 1);
        assert(all_in_cell(horizontal_slice(d, ofs, end - 1), ofs));
        lemma_both_in_cell(
            horizontal_run(d, ofs, end - 1),
            horizontal_slice(d, ofs, end - 1),
            ofs,
        );
    }
}

proof fn lemma_upper_run_in_cell(d: u16, ofs: Vector, end: int)
    requires
        cell_fits(ofs, 8, 16),
        end <= 7,
    ensures
        all_in_cell(upper_run(d, ofs, end), ofs),
    decreases end,
{
    if end > 2 {
        lemma_upper_run_in_cell(d, ofs, end - 1);
        assert(all_in_cell(upper_slice(d, ofs, end - 1), ofs));
        lemma_both_in_cell(upper_run(d, ofs, end - 1), upper_slice(d, ofs, end - 1), ofs);
    }
}

proof fn lemma_lower_run_in_cell(d: u16, ofs: Vector, end: int)
    requires
        cell_fits(ofs, 8, 16),
        end <= 14,
    ensures
        all_in_cell(lower_run(d, ofs, end), ofs),
    decreases end,
{
    if end > 9 {
        lemma_lower_run_in_cell(d, ofs, end - 1);
        assert(all_in_cell(lower_slice(d, ofs, end - 1), ofs));
        lemma_both_in_cell(lower_run(d, ofs, end - 1), lower_slice(d, ofs, end - 1), ofs);
    }
}

proof fn lemma_corners_in_cell(d: u16, ofs: Vector)
    requires
        cell_fits(ofs, 8, 16),
    ensures
        all_in_cell(corners(d, ofs), ofs),
{
    let fa = only_if(lit(d, F) || lit(d, A), outer_corner(lit(d, FA), ofs, 10, 0, 0, 2, 2, 2, 1, 1));
    let ab = only_if(lit(d, A) || lit(d, B), outer_corner(lit(d, AB), ofs, 12, 7, 0, 1, 5, 2, 6, 1));
    let cd = only_if(
        lit(d, C) || lit(d, D),
        outer_corner(lit(d, CD), ofs, 8, 7, 15, 3, 5, 13, 6, 14),
    );
    let de = only_if(
        lit(d, D) || lit(d, E),
        outer_corner(lit(d, DE), ofs, 5, 0, 15, 6, 2, 13, 1, 14),
    );
    let bc = only_if(
        lit(d, B) || lit(d, C),
        side_joint(
            lit(d, B),
            lit(d, C),
            lit(d, BC),
            ofs,
            7,
            6,
            12,
            8,
            joint_dots(ofs, 5, lit(d, B), 3, 6, lit(d, C), 1, 9),
        ),
    );
    let ef = only_if(
        lit(d, E) || lit(d, F),
        side_joint(
            lit(d, F),
            lit(d, E),
            lit(d, EF),
            ofs,
            0,
            1,
            10,
            5,
            joint_dots(ofs, 2, lit(d, E), 2, 9, lit(d, F), 6, 6),
        ),
    );
    assert(all_in_cell(fa, ofs));
    assert(all_in_cell(ab, ofs));
    assert(all_in_cell(cd, ofs));
    assert(all_in_cell(de, ofs));
    assert(all_in_cell(bc, ofs));
    assert(all_in_cell(ef, ofs));
    lemma_both_in_cell(fa, ab, ofs);
    lemma_both_in_cell(fa + ab, cd, ofs);
    lemma_both_in_cell(fa + ab + cd, de, ofs);
    lemma_both_in_cell(fa + ab + cd + de, bc, ofs);
    lemma_both_in_cell(fa + ab + cd + de + bc, ef, ofs);
}

/// Every tile of a big digit, whatever its shape, lies in the cell of 8×16
/// tiles.
pub proof fn lemma_big_digit_in_cell(d: u16, ofs: Vector)
    requires
        cell_fits(ofs, 8, 16),
    ensures
        all_in_cell(big_digit(d, ofs), ofs),
{
    lemma_horizontal_run_in_cell(d, ofs, 6);
    lemma_upper_run_in_cell(d, ofs, 7);
    lemma_lower_run_in_cell(d, ofs, 14);
    lemma_both_in_cell(horizontal_run(d, ofs, 6), upper_run(d, ofs, 7), ofs);
    lemma_both_in_cell(
        horizontal_run(d, ofs, 6) + upper_run(d, ofs, 7),
        lower_run(d, ofs, 14),
        ofs,
    );
    lemma_corners_in_cell(d, ofs);
    lemma_both_in_cell(segment_runs(d, ofs), corners(d, ofs), ofs);
    assert(all_in_cell(serif(d, ofs), ofs));
    lemma_both_in_cell(segment_runs(d, ofs) + corners(d, ofs), serif(d, ofs), ofs);
}

/// Hands `tiles` to the display one after the other and stops at the first
/// that the display refuses.
pub fn draw_tiles<Disp: Display>(disp: &mut Disp, tiles: &Vec<Placement>) -> (r: Result<
    (),
    Disp::Error,
>)
    requires
        old(disp).inv(),
    ensures
        final(disp).inv(),
        Disp::keeps_record() ==> carried_out(
            old(disp).requests(),
            final(disp).requests(),
            tile_requests(tiles@),
            failure_of(r),
        ),
{
    let mut i: usize = 0;
    proof {
        lemma_carried_out_nothing(disp.requests());
        assert(tile_requests(tiles@).take(0) =~= Seq::<Request>::empty());
    }
    while i < tiles.len()
        invariant
            i <= tiles.len(),
            disp.inv(),
            Disp::keeps_record() ==> carried_out(
                old(disp).requests(),
                disp.requests(),
                tile_requests(tiles@).take(i as int),
                None::<Disp::Error>,
            ),
        decreases tiles.len() - i,
    {
        let ghost before = disp.requests();
        let ghost plan = tile_requests(tiles@);
        let p = tiles[i];
        let r = disp.draw_tile(Tile::get_raw(p.pixels), p.pos);
        proof {
            if Disp::keeps_record() {
                lemma_carried_out_one(before, plan[i as int], failure_of(r));
                lemma_carried_out_then(
                    old(disp).requests(),
                    before,
                    disp.requests(),
                    plan.take(i as int),
                    seq![plan[i as int]],
                    failure_of(r),
                );
                assert(plan.take(i as int) + seq![plan[i as int]] =~= plan.take(i as int + 1));
            }
        }
        match r {
            Ok(_) => {},
            Err(e) => {
                proof {
                    if Disp::keeps_record() {
                        lemma_carried_out_cut(
                            old(disp).requests(),
                            disp.requests(),
                            plan.take(i as int + 1),
                            plan.skip(i as int + 1),
                            e,
                        );
                        assert(plan.take(i as int + 1) + plan.skip(i as int + 1) =~= plan);
                    }
                }
                return Err(e);
            },
        }
        i += 1;
    }
    assert(tile_requests(tiles@).take(i as int) =~= tile_requests(tiles@));
    Ok(())
}

/// Draws the big digit `digit` into the cell of 8×16 tiles whose top left
/// tile is `top_left`.
pub fn draw_big_digit_raw<Disp: Display>(digit: Digit, disp: &mut Disp, top_left: Vector) -> (r:
    Result<(), Disp::Error>)
    requires
        old(disp).inv(),
        cell_fits(top_left, 8, 16),
    ensures
        final(disp).inv(),
        Disp::keeps_record() ==> carried_out(
            old(disp).requests(),
            final(disp).requests(),
            tile_requests(big_digit(digit@, top_left)),
            failure_of(r),
        ),
{
    let tiles = big_digit_tiles(digit, top_left);
    draw_tiles(disp, &tiles)
}

/// Draws the hexadecimal digit in the low four bits of `num` as a big digit.
pub fn draw_big_digit<Disp: Display>(num: u8, disp: &mut Disp, top_left: Vector) -> (r: Result<
    (),
    Disp::Error,
>)
    requires
        old(disp).inv(),
        cell_fits(top_left, 8, 16),
    ensures
        final(disp).inv(),
        Disp::keeps_record() ==> carried_out(
            old(disp).requests(),
            final(disp).requests(),
            tile_requests(big_digit(Digit::of(num), top_left)),
            failure_of(r),
        ),
{
    let digit = Digit::get(num);
    draw_big_digit_raw(digit, disp, top_left)
}

/// The tiles of the colon between the hours and the minutes.
pub fn colon_tiles(top_left: Vector) -> (tiles: Vec<Placement>)
    requires
        cell_fits(top_left, 2, 11),
    ensures
        tiles@ == colon(top_left),
{
    let top_left_dot = Tile::get_by_index(2).invert().bits();
    let top_right_dot = Tile::get_by_index(1).invert().bits();
    let bottom_left_dot = Tile::get_by_index(6).invert().bits();
    let bottom_right_dot = Tile::get_by_index(3).invert().bits();
    let mut out: Vec<Placement> = Vec::new();
    push_tile(&mut out, top_left, top_left_dot, 0, 5);
    push_tile(&mut out, top_left, top_left_dot, 0, 9);
    push_tile(&mut out, top_left, top_right_dot, 1, 5);
    push_tile(&mut out, top_left, top_right_dot, 1, 9);
    push_tile(&mut out, top_left, bottom_left_dot, 0, 6);
    push_tile(&mut out, top_left, bottom_left_dot, 0, 10);
    push_tile(&mut out, top_left, bottom_right_dot, 1, 6);
    push_tile(&mut out, top_left, bottom_right_dot, 1, 10);
    assert(out@ =~= colon(top_left));
    out
}

/// Draws the colon between the hours and the minutes.
pub fn draw_colon<Disp: Display>(disp: &mut Disp, top_left: Vector) -> (r: Result<
    (),
    Disp::Error,
>)
    requires
        old(disp).inv(),
        cell_fits(top_left, 2, 11),
    ensures
        final(disp).inv(),
        Disp::keeps_record() ==> carried_out(
            old(disp).requests(),
            final(disp).requests(),
            tile_requests(colon(top_left)),
            failure_of(r),
        ),
{
    let tiles = colon_tiles(top_left);
    draw_tiles(disp, &tiles)
}

/// The tiles of the glyph of `ch` in the cell of 6×5 tiles at `pos`.
pub fn block_char_tiles(ch: u8, pos: Vector) -> (tiles: Vec<Placement>)
    requires
        cell_fits(pos, 6, 5),
    ensures
        tiles@ == block_char(ch, pos),
{
    let mut out: Vec<Placement> = Vec::new();
    append_block_char(&mut out, ch, pos);
    assert(out@ =~= block_char(ch, pos));
    out
}

fn append_block_char(out: &mut Vec<Placement>, ch: u8, pos: Vector)
    requires
        cell_fits(pos, 6, 5),
    ensures
        final(out)@ == old(out)@ + block_char(ch, pos),
{
    let glyph = Glyph::get(ch as char);
    let ghost bytes = glyph_bytes(glyph_index(ch as int));
    let mut n: i32 = 0;
    assert(out@ =~= old(out)@ + block_cells(bytes, pos, 0));
    while n < 30
        invariant
            0 <= n <= 30,
            cell_fits(pos, 6, 5),
            glyph@ == bytes,
            out@ == old(out)@ + block_cells(bytes, pos, n as int),
        decreases 30 - n,
    {
        let tx = n % 6;
        let ty = n / 6;
        let idx = glyph.get_tile_idx(tx, ty);
        if idx != 0 {
            push_tile(out, pos, Tile::get_by_index(idx as usize).bits(), tx, ty);
        }
        n += 1;
        assert(out@ =~= old(out)@ + block_cells(bytes, pos, n as int));
    }
}

/// The tiles of the characters of `text`, the first in the cell at
/// `top_left` and each of the others to the right of the one before.
pub fn block_text_tiles(text: &[u8], top_left: Vector) -> (tiles: Vec<Placement>)
    requires
        cell_fits(top_left, 6 * (text@.len() as int), 5),
    ensures
        tiles@ == block_text(text@, top_left),
{
    let mut out: Vec<Placement> = Vec::new();
    let mut i: usize = 0;
    assert(text@.take(0) =~= Seq::<u8>::empty());
    while i < text.len()
        invariant
            i <= text@.len(),
            cell_fits(top_left, 6 * (text@.len() as int), 5),
            out@ == block_text(text@.take(i as int), top_left),
        decreases text@.len() - i,
    {
        let x = (top_left.0 as i64 + 6 * (i as i64)) as i32;
        append_block_char(&mut out, text[i], Vector(x, top_left.1));
        proof {
            let upto = text@.take(i as int + 1);
            assert(upto.drop_last() =~= text@.take(i as int));
            assert(upto.last() == text@[i as int]);
        }
        i += 1;
    }
    assert(text@.take(i as int) =~= text@);
    out
}

/// Draws the glyph of `ch` into the cell of 6×5 tiles at `pos`.
pub fn draw_block_char<Disp: Display>(ch: u8, disp: &mut Disp, pos: Vector) -> (r: Result<
    (),
    Disp::Error,
>)
    requires
        old(disp).inv(),
        cell_fits(pos, 6, 5),
    ensures
        final(disp).inv(),
        Disp::keeps_record() ==> carried_out(
            old(disp).requests(),
            final(disp).requests(),
            tile_requests(block_char(ch, pos)),
            failure_of(r),
        ),
{
    let tiles = block_char_tiles(ch, pos);
    draw_tiles(disp, &tiles)
}

/// Draws `text` in the block font, six tiles to the character, starting
/// with the cell at `top_left`.
pub fn draw_block_text<Disp: Display>(text: &[u8], disp: &mut Disp, top_left: Vector) -> (r:
    Result<(), Disp::Error>)
    requires
        old(disp).inv(),
        cell_fits(top_left, 6 * (text@.len() as int), 5),
    ensures
        final(disp).inv(),
        Disp::keeps_record() ==> carried_out(
            old(disp).requests(),
            final(disp).requests(),
            tile_requests(block_text(text@, top_left)),
            failure_of(r),
        ),
{
    let tiles = block_text_tiles(text, top_left);
    draw_tiles(disp, &tiles)
}

/// However far `n` commands move a cursor, it is to the right and down, and
/// by 15 for each command at most.
pub proof fn lemma_run_commands_reach(cmds: Seq<u8>, cursor: Vector)
    requires
        commands_fit(cursor, cmds.len() as int),
    ensures
        cursor.0 <= run_commands(cmds, cursor).1.0 <= cursor.0 + 15 * cmds.len(),
        cursor.1 <= run_commands(cmds, cursor).1.1 <= cursor.1 + 15 * cmds.len(),
    decreases cmds.len(),
{
    if cmds.len() > 0 {
        lemma_run_commands_reach(cmds.drop_last(), cursor);
    }
}

fn append_command_fills(out: &mut Vec<Rect>, cmds: &Vec<u8>, cursor: Vector) -> (end: Vector)
    requires
        commands_fit(cursor, cmds@.len() as int),
    ensures
        final(out)@ == old(out)@ + run_commands(cmds@, cursor).0,
        end == run_commands(cmds@, cursor).1,
{
    let mut at = cursor;
    let mut i: usize = 0;
    assert(cmds@.take(0) =~= Seq::<u8>::empty());
    assert(out@ =~= old(out)@ + run_commands(cmds@.take(0), cursor).0);
    while i < cmds.len()
        invariant
            i <= cmds@.len(),
            commands_fit(cursor, cmds@.len() as int),
            out@ == old(out)@ + run_commands(cmds@.take(i as int), cursor).0,
            at == run_commands(cmds@.take(i as int), cursor).1,
            cursor.0 <= at.0 <= cursor.0 + 15 * i,
            cursor.1 <= at.1 <= cursor.1 + 15 * i,
        decreases cmds@.len() - i,
    {
        proof {
            let upto = cmds@.take(i as int + 1);
            assert(upto.drop_last() =~= cmds@.take(i as int));
            assert(upto.last() == cmds@[i as int]);
        }
        match decode_command(cmds[i]) {
            Command::Rect { w, h } => {
                out.push(Rect::new(at, Vector(at.0 + w as i32, at.1 + h as i32)));
                at = Vector(at.0 + w as i32, at.1);
            },
            Command::Skip(h) => {
                at = Vector(at.0, at.1 + h as i32);
            },
        }
        i += 1;
        assert(out@ =~= old(out)@ + run_commands(cmds@.take(i as int), cursor).0);
    }
    assert(cmds@.take(i as int) =~= cmds@);
    at
}

/// The rectangles that the commands `cmds` fill when the cursor starts at
/// `cursor`, and where they leave the cursor.
pub fn mini_command_fills(cmds: &Vec<u8>, cursor: Vector) -> (done: (Vec<Rect>, Vector))
    requires
        commands_fit(cursor, cmds@.len() as int),
    ensures
        done.0@ == run_commands(cmds@, cursor).0,
        done.1 == run_commands(cmds@, cursor).1,
{
    let mut out: Vec<Rect> = Vec::new();
    let end = append_command_fills(&mut out, cmds, cursor);
    assert(out@ =~= run_commands(cmds@, cursor).0);
    (out, end)
}

/// However far the characters of a text move a cursor, it is to the right
/// and down, and by 15 for each command that a character can have at most.
pub proof fn lemma_run_text_reach(text: Seq<u8>, cursor: Vector)
    requires
        commands_fit(cursor, MAX_COMMANDS * text.len()),
    ensures
        cursor.0 <= run_text(text, cursor).1.0 <= cursor.0 + 15 * MAX_COMMANDS * text.len(),
        cursor.1 <= run_text(text, cursor).1.1 <= cursor.1 + 15 * MAX_COMMANDS * text.len(),
    decreases text.len(),
{
    if text.len() > 0 {
        let n = text.len() as int;
        assert(text.drop_last().len() == n - 1);
        lemma_run_text_reach(text.drop_last(), cursor);
        let at = run_text(text.drop_last(), cursor).1;
        let cmds = commands_of(text.last());
        crate::clockmain::minifont::lemma_commands_of_len(text.last());
        assert(cursor.0 <= at.0 <= cursor.0 + 105 * (n - 1));
        assert(cursor.1 <= at.1 <= cursor.1 + 105 * (n - 1));
        assert(cmds.len() <= 7);
        assert(fits_i32(cursor.0 + 105 * n) && fits_i32(cursor.1 + 105 * n));
        lemma_run_commands_reach(cmds, at);
    }
}

/// The rectangles that `text` fills in the mini font when the cursor starts
/// at `top_left`, and where it leaves the cursor.
pub fn mini_text_fills(text: &[u8], top_left: Vector) -> (done: (Vec<Rect>, Vector))
    requires
        commands_fit(top_left, MAX_COMMANDS * text@.len()),
    ensures
        done.0@ == run_text(text@, top_left).0,
        done.1 == run_text(text@, top_left).1,
{
    let mut out: Vec<Rect> = Vec::new();
    let mut at = top_left;
    let mut i: usize = 0;
    assert(text@.take(0) =~= Seq::<u8>::empty());
    while i < text.len()
        invariant
            i <= text@.len(),
            commands_fit(top_left, MAX_COMMANDS * text@.len()),
            out@ == run_text(text@.take(i as int), top_left).0,
            at == run_text(text@.take(i as int), top_left).1,
        decreases text@.len() - i,
    {
        proof {
            let upto = text@.take(i as int + 1);
            assert(upto.drop_last() =~= text@.take(i as int));
            assert(upto.last() == text@[i as int]);
            lemma_run_text_reach(text@.take(i as int), top_left);
            assert(text@.take(i as int).len() == i);
            assert(fits_i32(top_left.0 + 105 * text@.len()) && fits_i32(
                top_left.1 + 105 * text@.len(),
            ));
        }
        let cmds = commands_for_character(text[i]);
        at = append_command_fills(&mut out, &cmds, at);
        i += 1;
    }
    assert(text@.take(i as int) =~= text@);
    (out, at)
}

/// Asks the display to fill `rects` one after the other and stops at the
/// first that the display refuses.
pub fn fill_rects<Disp: Display>(disp: &mut Disp, rects: &Vec<Rect>) -> (r: Result<
    (),
    Disp::Error,
>)
    requires
        old(disp).inv(),
    ensures
        final(disp).inv(),
        Disp::keeps_record() ==> carried_out(
            old(disp).requests(),
            final(disp).requests(),
            fill_requests(rects@),
            failure_of(r),
        ),
{
    let mut i: usize = 0;
    proof {
        lemma_carried_out_nothing(disp.requests());
        assert(fill_requests(rects@).take(0) =~= Seq::<Request>::empty());
    }
    while i < rects.len()
        invariant
            i <= rects.len(),
            disp.inv(),
            Disp::keeps_record() ==> carried_out(
                old(disp).requests(),
                disp.requests(),
                fill_requests(rects@).take(i as int),
                None::<Disp::Error>,
            ),
        decreases rects.len() - i,
    {
        let ghost before = disp.requests();
        let ghost plan = fill_requests(rects@);
        let r = disp.fill_rect(rects[i]);
        proof {
            if Disp::keeps_record() {
                lemma_carried_out_one(before, plan[i as int], failure_of(r));
                lemma_carried_out_then(
                    old(disp).requests(),
                    before,
                    disp.requests(),
                    plan.take(i as int),
                    seq![plan[i as int]],
                    failure_of(r),
                );
                assert(plan.take(i as int) + seq![plan[i as int]] =~= plan.take(i as int + 1));
            }
        }
        match r {
            Ok(_) => {},
            Err(e) => {
                proof {
                    if Disp::keeps_record() {
                        lemma_carried_out_cut(
                            old(disp).requests(),
                            disp.requests(),
                            plan.take(i as int + 1),
                            plan.skip(i as int + 1),
                            e,
                        );
                        assert(plan.take(i as int + 1) + plan.skip(i as int + 1) =~= plan);
                    }
                }
                return Err(e);
            },
        }
        i += 1;
    }
    assert(fill_requests(rects@).take(i as int) =~= fill_requests(rects@));
    Ok(())
}

/// Carries out the drawing commands `cmds` with the cursor starting at
/// `cursor`. Gives the place where the cursor is left.
pub fn draw_mini_commands<Disp: Display>(cmds: &Vec<u8>, disp: &mut Disp, cursor: Vector) -> (r:
    Result<Vector, Disp::Error>)
    requires
        old(disp).inv(),
        commands_fit(cursor, cmds@.len() as int),
    ensures
        final(disp).inv(),
        Disp::keeps_record() ==> carried_out(
            old(disp).requests(),
            final(disp).requests(),
            fill_requests(run_commands(cmds@, cursor).0),
            failure_of(r),
        ),
        r matches Ok(end) ==> end == run_commands(cmds@, cursor).1,
{
    let (rects, end) = mini_command_fills(cmds, cursor);
    match fill_rects(disp, &rects) {
        Ok(_) => Ok(end),
        Err(e) => Err(e),
    }
}

/// Draws `text` in the mini font with the cursor starting at `top_left`.
/// Gives the place where the cursor is left.
pub fn draw_mini_text<Disp: Display>(text: &[u8], disp: &mut Disp, top_left: Vector) -> (r:
    Result<Vector, Disp::Error>)
    requires
        old(disp).inv(),
        commands_fit(top_left, MAX_COMMANDS * text@.len()),
    ensures
        final(disp).inv(),
        Disp::keeps_record() ==> carried_out(
            old(disp).requests(),
            final(disp).requests(),
            fill_requests(run_text(text@, top_left).0),
            failure_of(r),
        ),
        r matches Ok(end) ==> end == run_text(text@, top_left).1,
{
    let (rects, end) = mini_text_fills(text, top_left);
    match fill_rects(disp, &rects) {
        Ok(_) => Ok(end),
        Err(e) => Err(e),
    }
}

} // verus!
