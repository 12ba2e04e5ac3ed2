//! Integer vectors and axis-aligned rectangles.

use vstd::prelude::*;
use vstd::std_specs::ops::AddSpecImpl;
use vstd::std_specs::ops::DivSpecImpl;
use vstd::std_specs::ops::MulSpecImpl;
use vstd::std_specs::ops::SubSpecImpl;

verus! {

/// A point or a displacement on the integer grid. Whether it counts tiles or
/// pixels is up to the caller.
#[derive(Copy, Clone, Debug, PartialEq, Eq, Structural)]
pub struct Vector(pub i32, pub i32);

/// Does `v` fit in an `i32`?
pub open spec fn fits_i32(v: int) -> bool {
    i32::MIN <= v <= i32::MAX
}

/// Quotient of `a` by `b` rounded towards zero, as machine division rounds.
pub open spec fn div_toward_zero(a: int, b: int) -> int {
    if a >= 0 {
        a / b
    } else {
        -((-a) / b)
    }
}

/// A quotient is no further from zero than what was divided, and at most
/// half as far where the divisor is neither 1 nor -1.
pub proof fn lemma_quotient_bounded(a: int, b: int)
    requires
        b != 0,
    ensures
        a >= 0 ==> -a <= div_toward_zero(a, b) <= a,
        a < 0 ==> a <= div_toward_zero(a, b) <= -a,
        b != 1 && b != -1 && a >= 0 ==> -a <= 2 * div_toward_zero(a, b) <= a,
        b != 1 && b != -1 && a < 0 ==> a <= 2 * div_toward_zero(a, b) <= -a,
{
    let n = if a >= 0 {
        a
    } else {
        -a
    };
    assert(-n <= n / b <= n) by (nonlinear_arith)
        requires
            n >= 0,
            b != 0,
    ;
    if b != 1 && b != -1 {
        assert(-n <= 2 * (n / b) <= n) by (nonlinear_arith)
            requires
                n >= 0,
                b >= 2 || b <= -2,
        ;
    }
}

impl Vector {
    /// Is this point between the corners of `rect` as they stand, edges
    /// included? A rectangle whose `start` lies beyond its `end` on an axis
    /// holds no point.
    pub fn inside(self, rect: Rect) -> (r: bool)
        ensures
            r == rect.spec_contains(self),
    {
        self.0 >= rect.start.0 && self.1 >= rect.start.1 && self.0 <= rect.end.0 && self.1
            <= rect.end.1
    }
}

impl core::ops::Add for Vector {
    type Output = Vector;

    /// The sum on each axis. Asks that both sums fit in an `i32`.
    fn add(self, rhs: Vector) -> (sum: Vector)
        ensures
            sum.0 == self.0 + rhs.0,
            sum.1 == self.1 + rhs.1,
    {
        Vector(self.0 + rhs.0, self.1 + rhs.1)
    }
}

impl AddSpecImpl for Vector {
    open spec fn obeys_add_spec() -> bool {
        true
    }

    open spec fn add_req(self, rhs: Vector) -> bool {
        fits_i32(self.0 + rhs.0) && fits_i32(self.1 + rhs.1)
    }

    open spec fn add_spec(self, rhs: Vector) -> Vector {
        Vector((self.0 + rhs.0) as i32, (self.1 + rhs.1) as i32)
    }
}

impl core::ops::Sub for Vector {
    type Output = Vector;

    /// The difference on each axis. Asks that both differences fit in an
    /// `i32`.
    fn sub(self, rhs: Vector) -> (difference: Vector)
        ensures
            difference.0 == self.0 - rhs.0,
            difference.1 == self.1 - rhs.1,
    {
        Vector(self.0 - rhs.0, self.1 - rhs.1)
    }
}

impl SubSpecImpl for Vector {
    open spec fn obeys_sub_spec() -> bool {
        true
    }

    open spec fn sub_req(self, rhs: Vector) -> bool {
        fits_i32(self.0 - rhs.0) && fits_i32(self.1 - rhs.1)
    }

    open spec fn sub_spec(self, rhs: Vector) -> Vector {
        Vector((self.0 - rhs.0) as i32, (self.1 - rhs.1) as i32)
    }
}

impl core::ops::Mul<i32> for Vector {
    type Output = Vector;

    /// Both coordinates multiplied by `rhs`. Asks that both products fit in
    /// an `i32`.
    fn mul(self, rhs: i32) -> (product: Vector)
        ensures
            product.0 == self.0 * rhs,
            product.1 == self.1 * rhs,
    {
        Vector(self.0 * rhs, self.1 * rhs)
    }
}

impl MulSpecImpl<i32> for Vector {
    open spec fn obeys_mul_spec() -> bool {
        true
    }

    open spec fn mul_req(self, rhs: i32) -> bool {
        fits_i32(self.0 * rhs) && fits_i32(self.1 * rhs)
    }

    open spec fn mul_spec(self, rhs: i32) -> Vector {
        Vector((self.0 * rhs) as i32, (self.1 * rhs) as i32)
    }
}

impl core::ops::Div<i32> for Vector {
    type Output = Vector;

    /// Both coordinates divided by `rhs` and rounded towards zero. Asks that
    /// `rhs` is not zero and that no quotient leaves the range of an `i32`.
    fn div(self, rhs: i32) -> (quotient: Vector)
        ensures
            quotient.0 == div_toward_zero(self.0 as int, rhs as int),
            quotient.1 == div_toward_zero(self.1 as int, rhs as int),
    {
        proof {
            lemma_quotient_bounded(self.0 as int, rhs as int);
            lemma_quotient_bounded(self.1 as int, rhs as int);
        }
        Vector(self.0 / rhs, self.1 / rhs)
    }
}

impl DivSpecImpl<i32> for Vector {
    open spec fn obeys_div_spec() -> bool {
        true
    }

    open spec fn div_req(self, rhs: i32) -> bool {
        rhs != 0 && !(rhs == -1 && (self.0 == i32::MIN || self.1 == i32::MIN))
    }

    open spec fn div_spec(self, rhs: i32) -> Vector {
        Vector(
            div_toward_zero(self.0 as int, rhs as int) as i32,
            div_toward_zero(self.1 as int, rhs as int) as i32,
        )
    }
}

/// An axis-aligned rectangle given by two opposite corners, in any order.
#[derive(Copy, Clone, Debug, PartialEq, Eq, Structural)]
pub struct Rect {
    pub start: Vector,
    pub end: Vector,
}

/// The lesser of two coordinates.
pub open spec fn min_i32(a: i32, b: i32) -> i32 {
    if a <= b {
        a
    } else {
        b
    }
}

/// The greater of two coordinates.
pub open spec fn max_i32(a: i32, b: i32) -> i32 {
    if a >= b {
        a
    } else {
        b
    }
}

impl Rect {
    /// Are the corners in order on both axes?
    pub open spec fn is_normalized(self) -> bool {
        self.start.0 <= self.end.0 && self.start.1 <= self.end.1
    }

    /// The same rectangle with `start` at its least and `end` at its greatest
    /// coordinates.
    pub open spec fn spec_normalized(self) -> Rect {
        Rect {
            start: Vector(min_i32(self.start.0, self.end.0), min_i32(self.start.1, self.end.1)),
            end: Vector(max_i32(self.start.0, self.end.0), max_i32(self.start.1, self.end.1)),
        }
    }

    /// The points between the corners as they stand, edges included; none
    /// where a `start` coordinate exceeds the `end` one.
    pub open spec fn spec_contains(self, p: Vector) -> bool {
        self.start.0 <= p.0 <= self.end.0 && self.start.1 <= p.1 <= self.end.1
    }

    /// The overlap of the two normalized rectangles.
    pub open spec fn spec_clip(self, bounds: Rect) -> Rect {
        let r = self.spec_normalized();
        let lim = bounds.spec_normalized();
        Rect {
            start: Vector(max_i32(r.start.0, lim.start.0), max_i32(r.start.1, lim.start.1)),
            end: Vector(min_i32(r.end.0, lim.end.0), min_i32(r.end.1, lim.end.1)),
        }
    }

    pub fn new(start: Vector, end: Vector) -> (r: Rect)
        ensures
            r == (Rect { start, end }),
    {
        Rect { start: start, end: end }
    }

    pub fn new4(x1: i32, y1: i32, x2: i32, y2: i32) -> (r: Rect)
        ensures
            r == (Rect { start: Vector(x1, y1), end: Vector(x2, y2) }),
    {
        Rect { start: Vector(x1, y1), end: Vector(x2, y2) }
    }

    /// The displacement from `start` to `end`.
    pub fn size(self) -> (v: Vector)
        requires
            fits_i32(self.end.0 - self.start.0),
            fits_i32(self.end.1 - self.start.1),
        ensures
            v.0 == self.end.0 - self.start.0,
            v.1 == self.end.1 - self.start.1,
    {
        self.end - self.start
    }

    pub fn normalized(self) -> (r: Rect)
        ensures
            r == self.spec_normalized(),
            r.is_normalized(),
    {
        let mut ret = self;
        if ret.start.0 > ret.end.0 {
            let end = ret.end.0;
            ret.end.0 = ret.start.0;
            ret.start.0 = end;
        }
        if ret.start.1 > ret.end.1 {
            let end = ret.end.1;
            ret.end.1 = ret.start.1;
            ret.start.1 = end;
        }
        ret
    }

    /// The part of this rectangle that lies within `bounds`. Where the two do
    /// not meet, the result contains no point.
    pub fn clip(self, bounds: Rect) -> (r: Rect)
        ensures
            r == self.spec_clip(bounds),
    {
        let mut ret = self.normalized();
        let lim = bounds.normalized();
        if ret.start.0 < lim.start.0 {
            ret.start.0 = lim.start.0;
        }
        if ret.start.1 < lim.start.1 {
            ret.start.1 = lim.start.1;
        }
        if ret.end.0 > lim.end.0 {
            ret.end.0 = lim.end.0;
        }
        if ret.end.1 > lim.end.1 {
            ret.end.1 = lim.end.1;
        }
        ret
    }
}

impl core::ops::Add<Vector> for Rect {
    type Output = Rect;

    /// The rectangle moved by `rhs`. Asks that all four coordinates stay in
    /// the range of an `i32`.
    fn add(self, rhs: Vector) -> (moved: Rect)
        ensures
            moved.start.0 == self.start.0 + rhs.0,
            moved.start.1 == self.start.1 + rhs.1,
            moved.end.0 == self.end.0 + rhs.0,
            moved.end.1 == self.end.1 + rhs.1,
    {
        Rect { start: self.start + rhs, end: self.end + rhs }
    }
}

impl AddSpecImpl<Vector> for Rect {
    open spec fn obeys_add_spec() -> bool {
        true
    }

    open spec fn add_req(self, rhs: Vector) -> bool {
        &&& fits_i32(self.start.0 + rhs.0)
        &&& fits_i32(self.start.1 + rhs.1)
        &&& fits_i32(self.end.0 + rhs.0)
        &&& fits_i32(self.end.1 + rhs.1)
    }

    open spec fn add_spec(self, rhs: Vector) -> Rect {
        Rect {
            start: Vector((self.start.0 + rhs.0) as i32, (self.start.1 + rhs.1) as i32),
            end: Vector((self.end.0 + rhs.0) as i32, (self.end.1 + rhs.1) as i32),
        }
    }
}

/// Normalizing twice is normalizing once.
pub proof fn lemma_normalized_idempotent(r: Rect)
    ensures
        r.spec_normalized().spec_normalized() == r.spec_normalized(),
        r.spec_normalized().is_normalized(),
{
}

/// Normalizing moves no point in or out: a normalized rectangle holds the
/// points that lie between the two corners on each axis.
pub proof fn lemma_normalized_contains(r: Rect, p: Vector)
    ensures
        r.spec_normalized().spec_contains(p) <==> {
            &&& (r.start.0 <= p.0 <= r.end.0 || r.end.0 <= p.0 <= r.start.0)
            &&& (r.start.1 <= p.1 <= r.end.1 || r.end.1 <= p.1 <= r.start.1)
        },
{
}

/// A point is in the clipped rectangle exactly when it is in both.
pub proof fn lemma_clip_is_intersection(r: Rect, bounds: Rect, p: Vector)
    ensures
        r.spec_clip(bounds).spec_contains(p) <==> r.spec_normalized().spec_contains(p)
            && bounds.spec_normalized().spec_contains(p),
{
}

} // verus!

