//! Geometry and the display capability that rendering targets.

use crate::record::failure_of;
use crate::record::Entry;
use vstd::prelude::*;

pub mod scale;
pub mod vector;

use vector::Rect;
use vector::Vector;

verus! {

/// One thing that can be asked of a display.
pub enum Request {
    /// Blank the frame that is being drawn.
    Clear,
    /// Show the frame that was drawn and start the next one.
    Flip,
    /// Put a 4×4 block of pixels at a tile position.
    Tile { pixels: u16, pos: Vector },
    /// Light every pixel of a rectangle.
    Fill { rect: Rect },
}

/// A 4×4 block of one-bit pixels.
pub trait Tile {
    /// Does this implementation state its pixels? One that is verified
    /// does. One that is not leaves this as it is, and nothing is claimed
    /// of it.
    open spec fn states_pixels() -> bool {
        false
    }

    /// The sixteen pixels, four bits per row, the top row in the lowest bits.
    open spec fn pixels(&self) -> u16 {
        0
    }

    fn raw_pixel_data(&self) -> (raw: u16)
        ensures
            Self::states_pixels() ==> raw == self.pixels(),
    ;
}

/// Is the pixel in column `x` and row `y` of the block `raw` lit? Rows run
/// from the lowest four bits upwards; within a row the leftmost pixel is the
/// highest of the four bits.
pub open spec fn tile_pixel(raw: u16, x: u16, y: u16) -> bool
    recommends
        x < 4,
        y < 4,
{
    (raw >> ((4 * y + (3 - x)) as u16)) & 1 == 1
}

/// Picking the row out of a block and then the column out of the row finds
/// the pixel.
pub proof fn lemma_row_and_column(raw: u16, x: u16, y: u16)
    by (bit_vector)
    requires
        x < 4,
        y < 4,
    ensures
        (((raw & (0xfu16 << (y * 4) as u16)) >> (y * 4) as u16) & (1u16 << (3 - x) as u16) != 0) == ((
        raw >> ((4 * y + (3 - x)) as u16)) & 1 == 1),
{
}

/// Is the pixel at `p` of the block `raw` lit?
pub fn tile_get_pixel(raw: u16, p: Vector) -> (lit: bool)
    requires
        0 <= p.0 < 4,
        0 <= p.1 < 4,
    ensures
        lit == tile_pixel(raw, p.0 as u16, p.1 as u16),
{
    let x = p.0 as u16;
    let y = p.1 as u16;
    let row_mask = 0xfu16 << (y * 4);
    let row = (raw & row_mask) >> (y * 4);
    let col_mask = 1u16 << (3 - x);
    proof {
        lemma_row_and_column(raw, x, y);
    }
    return row & col_mask != 0;
}

/// Something that can be drawn on. Coordinates count tiles unless an
/// implementation says otherwise.
pub trait Display {
    type Error;

    /// Does this implementation keep the record that the contracts below
    /// speak of? One that is verified does. One that is not leaves this
    /// as it is, and nothing is claimed of it.
    open spec fn keeps_record() -> bool {
        false
    }

    /// Every request made so far, oldest first, each with its answer.
    open spec fn requests(&self) -> Seq<Entry<Request, Self::Error>> {
        Seq::empty()
    }

    /// Width and height of the drawing area.
    open spec fn extent(&self) -> Vector {
        Vector(0, 0)
    }

    /// What an implementation needs to hold of itself between calls. An
    /// implementation that needs nothing leaves this as it is.
    open spec fn inv(&self) -> bool {
        true
    }

    /// Width and height of the drawing area.
    fn size(&self) -> (v: Vector)
        requires
            self.inv(),
        ensures
            Self::keeps_record() ==> v == self.extent(),
    ;

    /// Shows the frame that was drawn and starts the next one.
    fn flip(&mut self) -> (r: Result<(), Self::Error>)
        requires
            old(self).inv(),
        ensures
            final(self).inv(),
            Self::keeps_record() ==> final(self).requests() == old(self).requests().push(
                Entry { request: Request::Flip, failure: failure_of(r) },
            ),
    ;

    /// Blanks the frame that is being drawn.
    fn clear(&mut self) -> (r: Result<(), Self::Error>)
        requires
            old(self).inv(),
        ensures
            final(self).inv(),
            Self::keeps_record() ==> final(self).requests() == old(self).requests().push(
                Entry { request: Request::Clear, failure: failure_of(r) },
            ),
    ;

    /// Puts a tile at a tile position.
    fn draw_tile<T: Tile>(&mut self, tile: T, pos: Vector) -> (r: Result<(), Self::Error>)
        requires
            old(self).inv(),
        ensures
            final(self).inv(),
            Self::keeps_record() ==> final(self).requests() == old(self).requests().push(
                Entry {
                    request: Request::Tile { pixels: tile.pixels(), pos },
                    failure: failure_of(r),
                },
            ),
    ;

    /// Lights every pixel of a rectangle.
    fn fill_rect(&mut self, rect: Rect) -> (r: Result<(), Self::Error>)
        requires
            old(self).inv(),
        ensures
            final(self).inv(),
            Self::keeps_record() ==> final(self).requests() == old(self).requests().push(
                Entry { request: Request::Fill { rect }, failure: failure_of(r) },
            ),
    ;
}

} // verus!
