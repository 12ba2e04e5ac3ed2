//! A display whose unit is a block of pixels of another display.

use crate::graphics::vector::div_toward_zero;
use crate::graphics::vector::Rect;
use crate::graphics::vector::Vector;
use crate::graphics::Display;
use crate::graphics::Request;
use crate::graphics::Tile;
use crate::record::failure_of;
use crate::record::Entry;
use vstd::prelude::*;

verus! {

/// `v` held to the range of an `i32`.
pub open spec fn clamped(v: int) -> i32 {
    if v < i32::MIN {
        i32::MIN
    } else if v > i32::MAX {
        i32::MAX
    } else {
        v as i32
    }
}

/// The rectangle `rect` with every coordinate multiplied by `scale`.
/// Coordinates that leave the range of an `i32` stay at its ends.
pub open spec fn scaled(rect: Rect, scale: i32) -> Rect {
    Rect {
        start: Vector(clamped(rect.start.0 * scale), clamped(rect.start.1 * scale)),
        end: Vector(clamped(rect.end.0 * scale), clamped(rect.end.1 * scale)),
    }
}

fn times(v: i32, scale: i32) -> (r: i32)
    ensures
        r == clamped(v * scale),
{
    assert(-0x4000_0000_0000_0000 <= v * scale <= 0x4000_0000_0000_0000) by (nonlinear_arith)
        requires
            -0x8000_0000 <= v <= 0x8000_0000,
            -0x8000_0000 <= scale <= 0x8000_0000,
    ;
    let wide = v as i64 * scale as i64;
    if wide < i32::MIN as i64 {
        i32::MIN
    } else if wide > i32::MAX as i64 {
        i32::MAX
    } else {
        wide as i32
    }
}

/// Lets a display be addressed in units of `scale` of its pixels on each
/// axis. Rectangles are multiplied out to pixels. Tile positions go through
/// as they are: the inner display counts them in tiles already.
pub struct ScaleDisplay<D: Display> {
    disp: D,
    scale: i32,
    served: Ghost<Seq<Entry<Request, D::Error>>>,
}

impl<D: Display> ScaleDisplay<D> {
    /// The display that is drawn on.
    pub closed spec fn inner(self) -> D {
        self.disp
    }

    /// The number of pixels of the inner display that make one unit.
    pub closed spec fn factor(self) -> i32 {
        self.scale
    }

    pub fn new(disp: D, scale: i32) -> (s: ScaleDisplay<D>)
        requires
            disp.inv(),
            scale >= 1,
        ensures
            s.inv(),
            s.inner() == disp,
            s.factor() == scale,
            s.requests() == Seq::<Entry<Request, D::Error>>::empty(),
    {
        Self { disp: disp, scale: scale, served: Ghost(Seq::empty()) }
    }

    /// Gives the inner display back.
    pub fn release(self) -> (disp: D)
        ensures
            disp == self.inner(),
    {
        self.disp
    }
}

impl<D: Display> Display for ScaleDisplay<D> {
    type Error = D::Error;

    /// The record is kept where the inner display keeps its own.
    open spec fn keeps_record() -> bool {
        D::keeps_record()
    }

    closed spec fn requests(&self) -> Seq<Entry<Request, D::Error>> {
        self.served@
    }

    open spec fn inv(&self) -> bool {
        self.factor() >= 1 && self.inner().inv()
    }

    /// The size of the inner display in units, rounded towards zero.
    open spec fn extent(&self) -> Vector {
        Vector(
            div_toward_zero(self.inner().extent().0 as int, self.factor() as int) as i32,
            div_toward_zero(self.inner().extent().1 as int, self.factor() as int) as i32,
        )
    }

    fn size(&self) -> (v: Vector) {
        self.disp.size() / self.scale
    }

    fn flip(&mut self) -> (r: Result<(), D::Error>)
        ensures
            final(self).factor() == old(self).factor(),
            D::keeps_record() ==> final(self).inner().requests() == old(self).inner().requests().push(
                Entry { request: Request::Flip, failure: failure_of(r) },
            ),
    {
        let r = self.disp.flip();
        self.served = Ghost(
            self.served@.push(Entry { request: Request::Flip, failure: failure_of(r) }),
        );
        r
    }

    fn clear(&mut self) -> (r: Result<(), D::Error>)
        ensures
            final(self).factor() == old(self).factor(),
            D::keeps_record() ==> final(self).inner().requests() == old(self).inner().requests().push(
                Entry { request: Request::Clear, failure: failure_of(r) },
            ),
    {
        let r = self.disp.clear();
        self.served = Ghost(
            self.served@.push(Entry { request: Request::Clear, failure: failure_of(r) }),
        );
        r
    }

    fn draw_tile<T: Tile>(&mut self, tile: T, pos: Vector) -> (r: Result<(), D::Error>)
        ensures
            final(self).factor() == old(self).factor(),
            D::keeps_record() ==> final(self).inner().requests() == old(self).inner().requests().push(
                Entry {
                    request: Request::Tile { pixels: tile.pixels(), pos },
                    failure: failure_of(r),
                },
            ),
    {
        let ghost pixels = tile.pixels();
        let r = self.disp.draw_tile(tile, pos);
        self.served = Ghost(
            self.served@.push(
                Entry { request: Request::Tile { pixels, pos }, failure: failure_of(r) },
            ),
        );
        r
    }

    fn fill_rect(&mut self, rect: Rect) -> (r: Result<(), D::Error>)
        ensures
            final(self).factor() == old(self).factor(),
            D::keeps_record() ==> final(self).inner().requests() == old(self).inner().requests().push(
                Entry {
                    request: Request::Fill { rect: scaled(rect, old(self).factor()) },
                    failure: failure_of(r),
                },
            ),
    {
        let inner_rect = Rect::new(
            Vector(times(rect.start.0, self.scale), times(rect.start.1, self.scale)),
            Vector(times(rect.end.0, self.scale), times(rect.end.1, self.scale)),
        );
        let r = self.disp.fill_rect(inner_rect);
        self.served = Ghost(
            self.served@.push(Entry { request: Request::Fill { rect }, failure: failure_of(r) }),
        );
        r
    }
}

} // verus!
