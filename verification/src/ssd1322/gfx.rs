//! The controller as a display: two frames in its memory, one shown while
//! the other is drawn.

use crate::graphics::lemma_row_and_column;
use crate::graphics::tile_pixel;
use crate::graphics::vector::Rect;
use crate::graphics::vector::Vector;
use crate::graphics::Display as DisplayContract;
use crate::graphics::Request;
use crate::graphics::Tile;
use crate::record::failure_of;
use crate::record::lemma_carried_out_cut;
use crate::record::lemma_carried_out_nothing;
use crate::record::lemma_carried_out_then;
use crate::record::Entry;
use crate::ssd1322::interface::Interface;
use crate::ssd1322::interface::Packet;
use crate::ssd1322::interface::Repeat;
use crate::ssd1322::performed;
use crate::ssd1322::transmitted;
use crate::ssd1322::Error;
use crate::ssd1322::SSD1322;
use vstd::prelude::*;

verus! {

/// The byte of two pixels, the left one in the high four bits. A pixel that
/// is lit has all four of its bits set.
pub open spec fn nibble_byte(left: bool, right: bool) -> u8 {
    if left && right {
        0xff
    } else if left {
        0xf0
    } else if right {
        0x0f
    } else {
        0x00
    }
}

/// Is the pixel in column `x` and row `y` lit in the eight bytes that the
/// controller holds for a tile? Two bytes make a row, and the left pixel of
/// a byte is its high four bits.
pub open spec fn gdram_pixel(bytes: Seq<u8>, x: int, y: int) -> bool
    recommends
        bytes.len() == 8,
        0 <= x < 4,
        0 <= y < 4,
{
    if x % 2 == 0 {
        bytes[2 * y + x / 2] / 16 != 0
    } else {
        bytes[2 * y + x / 2] % 16 != 0
    }
}

/// The eight bytes that the controller holds for the tile `raw`, with the
/// pixels taken in only that come before the `n`th in reading order.
pub open spec fn swizzled_upto(raw: u16, n: int) -> Seq<u8> {
    Seq::new(
        8,
        |i: int|
            nibble_byte(
                4 * (i / 2) + 2 * (i % 2) < n && tile_pixel(
                    raw,
                    (2 * (i % 2)) as u16,
                    (i / 2) as u16,
                ),
                4 * (i / 2) + 2 * (i % 2) + 1 < n && tile_pixel(
                    raw,
                    (2 * (i % 2) + 1) as u16,
                    (i / 2) as u16,
                ),
            ),
    )
}

/// The eight bytes that the controller holds for the tile `raw`.
pub open spec fn swizzled(raw: u16) -> Seq<u8> {
    swizzled_upto(raw, 16)
}

/// A tile in the form in which the controller stores it.
#[derive(Clone, Copy, Debug)]
pub struct DrawTile([u8; 8]);

impl View for DrawTile {
    type V = Seq<u8>;

    closed spec fn view(&self) -> Seq<u8> {
        self.0@
    }
}

/// Lighting one pixel of a byte leaves the other as it is.
proof fn lemma_light_nibble(left: bool, right: bool)
    ensures
        nibble_byte(left, right) | 0xf0 == nibble_byte(true, right),
        nibble_byte(left, right) | 0x0f == nibble_byte(left, true),
{
    assert(0xffu8 | 0xf0 == 0xff && 0xf0u8 | 0xf0 == 0xf0 && 0x0fu8 | 0xf0 == 0xff && 0x00u8 | 0xf0
        == 0xf0 && 0xffu8 | 0x0f == 0xff && 0xf0u8 | 0x0f == 0xff && 0x0fu8 | 0x0f == 0x0f && 0x00u8
        | 0x0f == 0x0f) by (bit_vector);
}

impl DrawTile {
    /// Turns the one bit per pixel of a tile into the four bits per pixel of
    /// the controller.
    pub fn new<T: Tile>(tile: T) -> (t: DrawTile)
        ensures
            T::states_pixels() ==> t@ == swizzled(tile.pixels()),
    {
        Self::from_raw(tile.raw_pixel_data())
    }

    /// The tile with the pattern `raw` in the form of the controller.
    pub fn from_raw(raw: u16) -> (t: DrawTile)
        ensures
            t@ == swizzled(raw),
    {
        let mut ret = Self([0 as u8;8]);
        assert(ret@ =~= swizzled_upto(raw, 0));
        let mut y: u16 = 0;
        while y < 4
            invariant
                y <= 4,
                ret@ == swizzled_upto(raw, 4 * y),
            decreases 4 - y,
        {
            let mut x: u16 = 0;
            while x < 4
                invariant
                    x <= 4,
                    y < 4,
                    ret@ == swizzled_upto(raw, 4 * y + x),
                decreases 4 - x,
            {
                let row_mask = 0xfu16 << (y * 4);
                let row = (raw & row_mask) >> (y * 4);
                let col_mask = 1u16 << (3 - x);
                proof {
                    lemma_row_and_column(raw, x, y);
                }
                if row & col_mask != 0 {
                    ret.set_pixel(Vector(x as i32, y as i32));
                    proof {
                        // Of the byte that holds this pixel only the left
                        // half can have been lit before, and only when this
                        // pixel is the right one.
                        let left = x % 2 == 1 && tile_pixel(raw, (x - 1) as u16, y);
                        lemma_light_nibble(left, false);
                    }
                }
                assert(ret@ =~= swizzled_upto(raw, 4 * y + x + 1));
                x += 1;
            }
            y += 1;
        }
        ret
    }

    /// Lights the pixel in column `v.0` and row `v.1`.
    pub fn set_pixel(&mut self, v: Vector)
        requires
            0 <= v.0 < 4,
            0 <= v.1 < 4,
        ensures
            final(self)@ == old(self)@.update(
                2 * v.1 + v.0 / 2,
                old(self)@[2 * v.1 + v.0 / 2] | (if v.0 % 2 == 0 {
                    0xf0u8
                } else {
                    0x0fu8
                }),
            ),
    {
        let i = ((v.1 * 2) + (v.0 / 2)) as usize;
        let m: u8 = if v.0 % 2 == 0 {
            0xf0
        } else {
            0x0f
        };
        let b = self.0[i];
        self.0[i] = b | m;
    }

    /// The eight bytes as they go to the controller.
    pub fn raw_gdram_data(self) -> (bytes: [u8; 8])
        ensures
            bytes@ == self@,
    {
        return self.0;
    }
}

/// A tile pixel is lit in the controller's form exactly when it is lit in
/// the tile, and every pixel there is all on or all off.
pub proof fn lemma_swizzle_keeps_pixels(raw: u16, x: u16, y: u16)
    requires
        x < 4,
        y < 4,
    ensures
        swizzled(raw).len() == 8,
        gdram_pixel(swizzled(raw), x as int, y as int) == tile_pixel(raw, x, y),
        forall|i: int|
            0 <= i < 8 ==> {
                let b = #[trigger] swizzled(raw)[i];
                (b / 16 == 0 || b / 16 == 15) && (b % 16 == 0 || b % 16 == 15)
            },
{
}

/// How many bytes a frame of `size` pixels takes, two pixels to the byte.
pub fn raw_buffer_size(size: Vector) -> (n: usize)
    requires
        0 <= size.0,
        0 <= size.1,
        (size.0 / 2) * size.1 <= usize::MAX,
    ensures
        n == (size.0 / 2) * size.1,
{
    assert((size.0 / 2) * size.1 >= 0) by (nonlinear_arith)
        requires
            0 <= size.0,
            0 <= size.1,
    ;
    (size.0 as usize / 2) * size.1 as usize
}

/// A plan that writes `data` into the window of the columns `c0` to `c1` and
/// the rows `r0` to `r1`; no plan where the window leaves the memory of the
/// controller.
pub open spec fn window(c0: int, c1: int, r0: int, r1: int, data: Seq<u8>) -> Option<Seq<Packet>> {
    if 0 <= c0 <= 116 && 0 <= c1 <= 116 && 0 <= r0 <= 127 && 0 <= r1 <= 127 {
        Some(
            seq![
                Packet { opcode: 0x15, data: seq![c0 as u8, c1 as u8] },
                Packet { opcode: 0x75, data: seq![r0 as u8, r1 as u8] },
                Packet { opcode: 0x5c, data: data },
            ],
        )
    } else {
        None
    }
}

/// What drawing the tile `pixels` at the tile position `pos` sends: the
/// window is the one column and the four rows of the tile in the frame
/// `page`, the data its eight bytes.
pub open spec fn tile_plan(col_offset: u8, page: int, size: Vector, pixels: u16, pos: Vector)
    -> Option<Seq<Packet>> {
    let col = col_offset + pos.0;
    let row = page * size.1 + 4 * pos.1;
    window(col, col, row, row + 3, swizzled(pixels))
}

/// What clearing the frame `page` sends: zeros for the whole frame. The
/// width of the frame has to be a positive number of columns, and its height
/// positive.
pub open spec fn clear_plan(col_offset: u8, page: int, size: Vector) -> Option<Seq<Packet>> {
    if size.0 >= 4 && size.0 % 4 == 0 && size.1 >= 1 {
        window(
            col_offset as int,
            col_offset + size.0 / 4 - 1,
            page * size.1,
            page * size.1 + size.1 - 1,
            Seq::new(((size.0 / 2) * size.1) as nat, |i: int| 0x00u8),
        )
    } else {
        None
    }
}

/// What showing the frame `page` sends: its first row as the start line.
pub open spec fn flip_plan(page: int, size: Vector) -> Option<Seq<Packet>> {
    let start = page * size.1;
    if 0 <= start <= 127 {
        Some(seq![Packet { opcode: 0xa1, data: seq![start as u8] }])
    } else {
        None
    }
}

/// What filling the pixel rectangle `rect` of the frame `page` sends. Its
/// left and right edges have to lie on columns, which are four pixels wide.
/// `end` is the first pixel beyond the rectangle. A rectangle without
/// pixels sends nothing.
pub open spec fn fill_plan(col_offset: u8, page: int, size: Vector, rect: Rect) -> Option<
    Seq<Packet>,
> {
    if rect.start.0 % 4 != 0 || rect.end.0 % 4 != 0 {
        None
    } else {
        let n = rect.spec_normalized();
        if n.start.0 == n.end.0 || n.start.1 == n.end.1 {
            Some(Seq::empty())
        } else {
            window(
                col_offset + n.start.0 / 4,
                col_offset + n.end.0 / 4 - 1,
                page * size.1 + n.start.1,
                page * size.1 + n.end.1 - 1,
                Seq::new(
                    (((n.end.0 - n.start.0) / 2) * (n.end.1 - n.start.1)) as nat,
                    |i: int| 0xffu8,
                ),
            )
        }
    }
}

/// A fill of a rectangle whose left or right edge is not on a column fails
/// with `Request` and leaves the bus alone, whatever else holds of the
/// rectangle and of the display.
pub proof fn lemma_fill_off_column_refused<E>(
    col_offset: u8,
    page: int,
    size: Vector,
    rect: Rect,
    before: Seq<Entry<Packet, E>>,
    after: Seq<Entry<Packet, E>>,
    r: Result<(), Error<E>>,
)
    requires
        rect.start.0 % 4 != 0 || rect.end.0 % 4 != 0,
        performed(true, before, after, fill_plan(col_offset, page, size, rect), r),
    ensures
        after == before,
        r == Err::<(), Error<E>>(Error::Request),
{
}

proof fn lemma_transmitted_then<E>(
    a: Seq<Entry<Packet, E>>,
    b: Seq<Entry<Packet, E>>,
    c: Seq<Entry<Packet, E>>,
    first: Seq<Packet>,
    second: Seq<Packet>,
    r1: Result<(), Error<E>>,
    r2: Result<(), Error<E>>,
)
    requires
        r1 is Ok,
        transmitted(a, b, first, r1),
        transmitted(b, c, second, r2),
    ensures
        transmitted(a, c, first + second, r2),
{
    match r2 {
        Ok(_) => {
            lemma_carried_out_then(a, b, c, first, second, None::<E>);
        },
        Err(Error::Comms(e)) => {
            lemma_carried_out_then(a, b, c, first, second, Some(e));
        },
        Err(_) => {},
    }
}

proof fn lemma_transmitted_cut<E>(
    a: Seq<Entry<Packet, E>>,
    b: Seq<Entry<Packet, E>>,
    first: Seq<Packet>,
    second: Seq<Packet>,
    r: Result<(), Error<E>>,
)
    requires
        r is Err,
        transmitted(a, b, first, r),
    ensures
        transmitted(a, b, first + second, r),
{
    match r {
        Err(Error::Comms(e)) => {
            lemma_carried_out_cut(a, b, first, second, e);
        },
        _ => {},
    }
}

/// Sets the window that the next data goes to.
fn address_window<I: Interface>(drv: &mut SSD1322<I>, c0: u8, c1: u8, r0: u8, r1: u8) -> (r:
    Result<(), Error<I::Error>>)
    requires
        c0 <= 116,
        c1 <= 116,
        r0 <= 127,
        r1 <= 127,
    ensures
        r is Err ==> r->Err_0 is Comms,
        I::keeps_record() ==> transmitted(
            old(drv).sent(),
            final(drv).sent(),
            seq![
                Packet { opcode: 0x15, data: seq![c0, c1] },
                Packet { opcode: 0x75, data: seq![r0, r1] },
            ],
            r,
        ),
{
    let ghost start = drv.sent();
    let ghost cols = seq![Packet { opcode: 0x15, data: seq![c0, c1] }];
    let ghost rows = seq![Packet { opcode: 0x75, data: seq![r0, r1] }];
    assert(cols + rows =~= seq![
        Packet { opcode: 0x15, data: seq![c0, c1] },
        Packet { opcode: 0x75, data: seq![r0, r1] },
    ]);
    let r1_ = drv.set_column_addresses(c0, c1);
    if r1_.is_err() {
        proof {
            if I::keeps_record() {
                lemma_transmitted_cut(start, drv.sent(), cols, rows, r1_);
            }
        }
        return r1_;
    }
    let ghost mid = drv.sent();
    let r2_ = drv.set_row_addresses(r0, r1);
    proof {
        if I::keeps_record() {
            lemma_transmitted_then(start, mid, drv.sent(), cols, rows, r1_, r2_);
        }
    }
    r2_
}

/// Writes the bytes of `data` into a window.
fn write_window<I: Interface>(
    drv: &mut SSD1322<I>,
    c0: u8,
    c1: u8,
    r0: u8,
    r1: u8,
    data: &[u8],
) -> (r: Result<(), Error<I::Error>>)
    requires
        c0 <= 116,
        c1 <= 116,
        r0 <= 127,
        r1 <= 127,
    ensures
        performed(
            I::keeps_record(),
            old(drv).sent(),
            final(drv).sent(),
            window(c0 as int, c1 as int, r0 as int, r1 as int, data@),
            r,
        ),
{
    let ghost start = drv.sent();
    let ghost head = seq![
        Packet { opcode: 0x15, data: seq![c0, c1] },
        Packet { opcode: 0x75, data: seq![r0, r1] },
    ];
    let ghost tail = seq![Packet { opcode: 0x5c, data: data@ }];
    assert(head + tail =~= window(c0 as int, c1 as int, r0 as int, r1 as int, data@)->Some_0);
    let ra = address_window(drv, c0, c1, r0, r1);
    if ra.is_err() {
        proof {
            if I::keeps_record() {
                lemma_transmitted_cut(start, drv.sent(), head, tail, ra);
            }
        }
        return ra;
    }
    let ghost mid = drv.sent();
    let rb = drv.write_gdram(data);
    proof {
        if I::keeps_record() {
            lemma_transmitted_then(start, mid, drv.sent(), head, tail, ra, rb);
        }
    }
    rb
}

/// Fills a window with a run of equal bytes.
fn fill_window<I: Interface>(
    drv: &mut SSD1322<I>,
    c0: u8,
    c1: u8,
    r0: u8,
    r1: u8,
    data: Repeat,
) -> (r: Result<(), Error<I::Error>>)
    requires
        c0 <= 116,
        c1 <= 116,
        r0 <= 127,
        r1 <= 127,
    ensures
        performed(
            I::keeps_record(),
            old(drv).sent(),
            final(drv).sent(),
            window(c0 as int, c1 as int, r0 as int, r1 as int, data@),
            r,
        ),
{
    let ghost start = drv.sent();
    let ghost head = seq![
        Packet { opcode: 0x15, data: seq![c0, c1] },
        Packet { opcode: 0x75, data: seq![r0, r1] },
    ];
    let ghost tail = seq![Packet { opcode: 0x5c, data: data@ }];
    assert(head + tail =~= window(c0 as int, c1 as int, r0 as int, r1 as int, data@)->Some_0);
    let ra = address_window(drv, c0, c1, r0, r1);
    if ra.is_err() {
        proof {
            if I::keeps_record() {
                lemma_transmitted_cut(start, drv.sent(), head, tail, ra);
            }
        }
        return ra;
    }
    let ghost mid = drv.sent();
    let rb = drv.write_gdram_iter(data);
    proof {
        if I::keeps_record() {
            lemma_transmitted_then(start, mid, drv.sent(), head, tail, ra, rb);
        }
    }
    rb
}

/// A panel behind an SSD1322 whose memory holds two frames of `size`
/// pixels, one below the other, starting `col_offset` columns into each row.
/// Frame 1 is drawn first while frame 0 is shown; each flip that succeeds
/// swaps them.
pub struct Display<I: Interface> {
    drv: SSD1322<I>,
    size: Vector,
    col_offset: u8,
    next_page: bool,
    served: Ghost<Seq<Entry<Request, Error<I::Error>>>>,
}

impl<I: Interface> Display<I> {
    /// The driver that this display sends its commands through.
    pub closed spec fn driver(self) -> SSD1322<I> {
        self.drv
    }

    /// Every command that went to the transport so far.
    pub open spec fn sent(self) -> Seq<Entry<Packet, I::Error>> {
        self.driver().sent()
    }

    /// The column of the controller at which the rows of the panel begin.
    pub closed spec fn column_offset(self) -> u8 {
        self.col_offset
    }

    /// Width and height of a frame in pixels.
    pub closed spec fn frame(self) -> Vector {
        self.size
    }

    /// The frame that is being drawn, 0 or 1.
    pub closed spec fn page(self) -> int {
        if self.next_page {
            1
        } else {
            0
        }
    }

    pub fn new(drv: SSD1322<I>, size: Vector, col_offset: u8) -> (d: Display<I>)
        ensures
            d.driver() == drv,
            d.frame() == size,
            d.column_offset() == col_offset,
            d.page() == 1,
            d.requests() == Seq::<Entry<Request, Error<I::Error>>>::empty(),
    {
        Self {
            drv: drv,
            size: size,
            col_offset: col_offset,
            next_page: true,
            served: Ghost(Seq::empty()),
        }
    }

    /// The frame that is being drawn, 0 or 1.
    pub fn drawing_page(&self) -> (page: i32)
        ensures
            page == self.page(),
            page == 0 || page == 1,
    {
        if self.next_page {
            1
        } else {
            0
        }
    }

    /// Gives the driver back.
    pub fn release(self) -> (drv: SSD1322<I>)
        ensures
            drv == self.driver(),
    {
        self.drv
    }
}

/// Draws one tile into the frame `page`.
fn send_tile<I: Interface>(
    drv: &mut SSD1322<I>,
    col_offset: u8,
    page: i32,
    size: Vector,
    pixels: [u8; 8],
    pos: Vector,
) -> (r: Result<(), Error<I::Error>>)
    requires
        page == 0 || page == 1,
    ensures
        forall|raw: u16|
            swizzled(raw) == pixels@ ==> performed(
                I::keeps_record(),
                old(drv).sent(),
                final(drv).sent(),
                #[trigger] tile_plan(col_offset, page as int, size, raw, pos),
                r,
            ),
{
    let col = col_offset as i64 + pos.0 as i64;
    let row = page as i64 * size.1 as i64 + 4 * pos.1 as i64;
    if col < 0 || col > 116 || row < 0 || row + 3 > 127 {
        return Err(Error::Request);
    }
    write_window(drv, col as u8, col as u8, row as u8, (row + 3) as u8, pixels.as_slice())
}

/// Blanks the frame `page`.
fn send_clear<I: Interface>(drv: &mut SSD1322<I>, col_offset: u8, page: i32, size: Vector) -> (r:
    Result<(), Error<I::Error>>)
    requires
        page == 0 || page == 1,
    ensures
        performed(
            I::keeps_record(),
            old(drv).sent(),
            final(drv).sent(),
            clear_plan(col_offset, page as int, size),
            r,
        ),
{
    if size.0 < 4 || size.0 % 4 != 0 || size.1 < 1 {
        return Err(Error::Request);
    }
    let first_col = col_offset as i64;
    let last_col = col_offset as i64 + (size.0 / 4) as i64 - 1;
    let first_row = page as i64 * size.1 as i64;
    let last_row = first_row + size.1 as i64 - 1;
    if last_col > 116 || last_row > 127 {
        return Err(Error::Request);
    }
    assert((size.0 / 2) * size.1 <= 234 * 128) by (nonlinear_arith)
        requires
            0 <= size.0 / 2 <= 234,
            0 <= size.1 <= 128,
    ;
    let l = raw_buffer_size(size);
    let zeros = Repeat::new(0x00, l);
    assert(zeros@ =~= Seq::new(((size.0 / 2) * size.1) as nat, |i: int| 0x00u8));
    fill_window(drv, first_col as u8, last_col as u8, first_row as u8, last_row as u8, zeros)
}

/// Shows the frame `page`.
fn send_flip<I: Interface>(drv: &mut SSD1322<I>, page: i32, size: Vector) -> (r: Result<
    (),
    Error<I::Error>,
>)
    requires
        page == 0 || page == 1,
    ensures
        performed(
            I::keeps_record(),
            old(drv).sent(),
            final(drv).sent(),
            flip_plan(page as int, size),
            r,
        ),
{
    let start = page as i64 * size.1 as i64;
    if start < 0 || start > 127 {
        return Err(Error::Request);
    }
    drv.set_display_start_line(start as u8)
}

/// Lights the pixels of `rect` in the frame `page`.
fn send_fill<I: Interface>(
    drv: &mut SSD1322<I>,
    col_offset: u8,
    page: i32,
    size: Vector,
    rect: Rect,
) -> (r: Result<(), Error<I::Error>>)
    requires
        page == 0 || page == 1,
    ensures
        performed(
            I::keeps_record(),
            old(drv).sent(),
            final(drv).sent(),
            fill_plan(col_offset, page as int, size, rect),
            r,
        ),
{
    if rect.start.0 % 4 != 0 || rect.end.0 % 4 != 0 {
        return Err(Error::Request);
    }
    let n = rect.normalized();
    if n.start.0 == n.end.0 || n.start.1 == n.end.1 {
        proof {
            lemma_carried_out_nothing::<Packet, I::Error>(drv.sent());
        }
        return Ok(());
    }
    let first_col = col_offset as i64 + (n.start.0 / 4) as i64;
    let last_col = col_offset as i64 + (n.end.0 / 4) as i64 - 1;
    let first_row = page as i64 * size.1 as i64 + n.start.1 as i64;
    let last_row = page as i64 * size.1 as i64 + n.end.1 as i64 - 1;
    if first_col < 0 || first_col > 116 || last_col < 0 || last_col > 116 || first_row < 0
        || first_row > 127 || last_row < 0 || last_row > 127 {
        return Err(Error::Request);
    }
    let half_width = (n.end.0 as i64 - n.start.0 as i64) / 2;
    let height = n.end.1 as i64 - n.start.1 as i64;
    assert(0 <= half_width * height <= 234 * 128) by (nonlinear_arith)
        requires
            0 <= half_width <= 234,
            0 <= height <= 128,
    ;
    let ones = Repeat::new(0xff, (half_width * height) as usize);
    assert(ones@ =~= Seq::new(
        (((n.end.0 - n.start.0) / 2) * (n.end.1 - n.start.1)) as nat,
        |i: int| 0xffu8,
    ));
    fill_window(drv, first_col as u8, last_col as u8, first_row as u8, last_row as u8, ones)
}

impl<I: Interface> DisplayContract for Display<I> {
    type Error = Error<I::Error>;

    open spec fn keeps_record() -> bool {
        true
    }

    closed spec fn requests(&self) -> Seq<Entry<Request, Error<I::Error>>> {
        self.served@
    }

    open spec fn extent(&self) -> Vector {
        self.frame()
    }

    /// The size of a frame in pixels.
    fn size(&self) -> (v: Vector) {
        self.size
    }

    /// Shows the frame that was drawn and makes the other one the frame to
    /// draw. Where it fails the frames stay as they are.
    fn flip(&mut self) -> (r: Result<(), Error<I::Error>>)
        ensures
            performed(
                I::keeps_record(),
                old(self).sent(),
                final(self).sent(),
                flip_plan(old(self).page(), old(self).frame()),
                r,
            ),
            final(self).page() == if r is Ok {
                1 - old(self).page()
            } else {
                old(self).page()
            },
            final(self).column_offset() == old(self).column_offset(),
            final(self).frame() == old(self).frame(),
    {
        let page = self.drawing_page();
        let r = send_flip(&mut self.drv, page, self.size);
        if r.is_ok() {
            self.next_page = !self.next_page;
        }
        self.served = Ghost(
            self.served@.push(Entry { request: Request::Flip, failure: failure_of(r) }),
        );
        r
    }

    /// Blanks the frame that is being drawn.
    fn clear(&mut self) -> (r: Result<(), Error<I::Error>>)
        ensures
            performed(
                I::keeps_record(),
                old(self).sent(),
                final(self).sent(),
                clear_plan(old(self).column_offset(), old(self).page(), old(self).frame()),
                r,
            ),
            final(self).page() == old(self).page(),
            final(self).column_offset() == old(self).column_offset(),
            final(self).frame() == old(self).frame(),
    {
        let page = self.drawing_page();
        let r = send_clear(&mut self.drv, self.col_offset, page, self.size);
        self.served = Ghost(
            self.served@.push(Entry { request: Request::Clear, failure: failure_of(r) }),
        );
        r
    }

    /// Draws a tile at a tile position of the frame that is being drawn.
    fn draw_tile<T: Tile>(&mut self, tile: T, pos: Vector) -> (r: Result<(), Error<I::Error>>)
        ensures
            T::states_pixels() ==> performed(
                I::keeps_record(),
                old(self).sent(),
                final(self).sent(),
                tile_plan(
                    old(self).column_offset(),
                    old(self).page(),
                    old(self).frame(),
                    tile.pixels(),
                    pos,
                ),
                r,
            ),
            final(self).page() == old(self).page(),
            final(self).column_offset() == old(self).column_offset(),
            final(self).frame() == old(self).frame(),
    {
        let to_draw = DrawTile::new(tile);
        let page = self.drawing_page();
        let r = send_tile(
            &mut self.drv,
            self.col_offset,
            page,
            self.size,
            to_draw.raw_gdram_data(),
            pos,
        );
        self.served = Ghost(
            self.served@.push(
                Entry {
                    request: Request::Tile { pixels: tile.pixels(), pos },
                    failure: failure_of(r),
                },
            ),
        );
        r
    }

    /// Lights the pixels of a rectangle of the frame that is being drawn.
    /// The rectangle is given in pixels.
    fn fill_rect(&mut self, rect: Rect) -> (r: Result<(), Error<I::Error>>)
        ensures
            performed(
                I::keeps_record(),
                old(self).sent(),
                final(self).sent(),
                fill_plan(old(self).column_offset(), old(self).page(), old(self).frame(), rect),
                r,
            ),
            final(self).page() == old(self).page(),
            final(self).column_offset() == old(self).column_offset(),
            final(self).frame() == old(self).frame(),
    {
        let page = self.drawing_page();
        let r = send_fill(&mut self.drv, self.col_offset, page, self.size, rect);
        self.served = Ghost(
            self.served@.push(Entry { request: Request::Fill { rect }, failure: failure_of(r) }),
        );
        r
    }
}

} // verus!
