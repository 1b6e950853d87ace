//! Adding points and lengths, and the sum of squared distances of points.
use vstd::prelude::*;

verus! {

/// A point on the integer grid.
#[derive(Clone, Copy, Debug, PartialEq, Eq, Structural)]
pub struct GridPoint {
    pub x: i32,
    pub y: i32,
}

impl GridPoint {
    /// The coordinate-wise sum of this point and `other`.
    pub fn add(self, other: GridPoint) -> (r: GridPoint)
        requires
            i32::MIN <= self.x + other.x <= i32::MAX,
            i32::MIN <= self.y + other.y <= i32::MAX,
        ensures
            r.x == self.x + other.x,
            r.y == self.y + other.y,
    {
        GridPoint { x: self.x + other.x, y: self.y + other.y }
    }
}

/// A length in millimetres.
#[derive(Clone, Copy, Debug, PartialEq, Eq, Structural)]
pub struct Millimeters(pub u32);

/// A length in metres.
#[derive(Clone, Copy, Debug, PartialEq, Eq, Structural)]
pub struct Meters(pub u32);

impl Millimeters {
    /// This length plus `other`, in millimetres.
    pub fn add(self, other: Meters) -> (r: Millimeters)
        requires
            self.0 + other.0 * 1000 <= u32::MAX,
        ensures
            r.0 == self.0 + other.0 * 1000,
    {
        Millimeters(self.0 + other.0 * 1000)
    }
}

/// The sum of `x * x + y * y` over `points`.
pub open spec fn sum_of_squares_spec(points: Seq<GridPoint>) -> int
    decreases points.len(),
{
    if points.len() == 0 {
        0
    } else {
        sum_of_squares_spec(points.drop_last()) + points.last().x * points.last().x
            + points.last().y * points.last().y
    }
}

/// The sum of `x * x + y * y` over `points`; the sum must fit an `i64`.
pub fn sum_of_squares(points: &Vec<GridPoint>) -> (r: i64)
    requires
        sum_of_squares_spec(points@) <= i64::MAX,
    ensures
        r == sum_of_squares_spec(points@),
{
    let mut total: i64 = 0;
    for k in 0..points.len()
        invariant
            total == sum_of_squares_spec(points@.take(k as int)),
            sum_of_squares_spec(points@) <= i64::MAX,
    {
        let p = points[k];
        assert(points@.take(k + 1).drop_last() =~= points@.take(k as int));
        proof {
            squares_grow(points@, k + 1);
        }
        let x = p.x as i64;
        let y = p.y as i64;
        assert(0 <= x * x <= 0x4000_0000_0000_0000) by (nonlinear_arith)
            requires
                -0x8000_0000 <= x <= 0x7fff_ffff,
        ;
        assert(0 <= y * y <= 0x4000_0000_0000_0000) by (nonlinear_arith)
            requires
                -0x8000_0000 <= y <= 0x7fff_ffff,
        ;
        assert(sum_of_squares_spec(points@.take(k + 1)) == total + x * x + y * y);
        total = total + x * x;
        total = total + y * y;
    }
    assert(points@.take(points@.len() as int) =~= points@);
    total
}

/// The sum over a prefix is at most the sum over the whole.
proof fn squares_grow(points: Seq<GridPoint>, n: int)
    requires
        0 <= n <= points.len(),
    ensures
        sum_of_squares_spec(points.take(n)) <= sum_of_squares_spec(points),
    decreases points.len() - n,
{
    if n < points.len() {
        squares_grow(points, n + 1);
        assert(points.take(n + 1).drop_last() =~= points.take(n));
        let p = points[n];
        assert(p.x * p.x >= 0 && p.y * p.y >= 0) by (nonlinear_arith);
    } else {
        assert(points.take(n) =~= points);
    }
}

} // verus!
