//! Geometric value types: points, rectangles, lines and circles, with
//! containment, intersection and distance predicates.

use vstd::prelude::*;

verus! {

/// A 2D coordinate. A plain value with no identity.
#[derive(Debug, Copy, Clone, PartialEq, Eq, Structural)]
pub struct Point {
    pub x: i32,
    pub y: i32,
}

/// `r` is the floor of the square root of `n`.
pub open spec fn is_sqrt_floor(n: int, r: int) -> bool {
    0 <= r && r * r <= n && n < (r + 1) * (r + 1)
}

impl Point {
    pub fn new(x: i32, y: i32) -> (p: Point)
        ensures
            p == (Point { x, y }),
    {
        Point { x, y }
    }

    /// Component-wise vector sum.
    pub fn add(&self, other: Point) -> (p: Point)
        requires
            i32::MIN <= self.x + other.x <= i32::MAX,
            i32::MIN <= self.y + other.y <= i32::MAX,
        ensures
            p.x == self.x + other.x,
            p.y == self.y + other.y,
    {
        Point { x: self.x + other.x, y: self.y + other.y }
    }

    /// Component-wise vector difference.
    pub fn subtract(&self, other: Point) -> (p: Point)
        requires
            i32::MIN <= self.x - other.x <= i32::MAX,
            i32::MIN <= self.y - other.y <= i32::MAX,
        ensures
            p.x == self.x - other.x,
            p.y == self.y - other.y,
    {
        Point { x: self.x - other.x, y: self.y - other.y }
    }

    /// The squared Euclidean distance between two points.
    pub open spec fn dist_sq(self, other: Point) -> int {
        (other.x - self.x) * (other.x - self.x) + (other.y - self.y) * (other.y - self.y)
    }

    /// Euclidean distance between two points, rounded down to an integer.
    pub fn distance(&self, other: Point) -> (d: u64)
        ensures
            is_sqrt_floor(self.dist_sq(other), d as int),
    {
        let dx: i128 = other.x as i128 - self.x as i128;
        let dy: i128 = other.y as i128 - self.y as i128;
        proof {
            assert(0 <= dx * dx < 0x1_0000_0000_0000_0000i128) by (nonlinear_arith)
                requires -0x1_0000_0000i128 < dx < 0x1_0000_0000i128;
            assert(0 <= dy * dy < 0x1_0000_0000_0000_0000i128) by (nonlinear_arith)
                requires -0x1_0000_0000i128 < dy < 0x1_0000_0000i128;
        }
        let sq: i128 = dx * dx + dy * dy;
        isqrt(sq as u128)
    }
}

/// The floor of the square root of `n`, by binary search on the answer.
fn isqrt(n: u128) -> (r: u64)
    ensures
        is_sqrt_floor(n as int, r as int),
{
    if n == 0 {
        return 0;
    }
    let mut lo: u128 = 0;
    let mut hi: u128 = 0x1_0000_0000_0000_0000u128;
    proof {
        assert(hi * hi > n) by (nonlinear_arith)
            requires hi == 0x1_0000_0000_0000_0000u128, n < hi * hi;
    }
    while lo + 1 < hi
        invariant
            lo < hi <= 0x1_0000_0000_0000_0000u128,
            lo * lo <= n,
            n < hi * hi,
        decreases hi - lo,
    {
        let mid: u128 = lo + (hi - lo) / 2;
        proof {
            vstd::arithmetic::div_mod::lemma_fundamental_div_mod(n as int, mid as int);
        }
        if mid <= n / mid {
            proof {
                assert(mid * mid <= n) by (nonlinear_arith)
                    requires
                        mid > 0,
                        mid <= n / mid,
                        n == mid * (n / mid) + n % mid,
                        0 <= n % mid;
            }
            lo = mid;
        } else {
            proof {
                assert(n < mid * mid) by (nonlinear_arith)
                    requires
                        mid > 0,
                        mid > n / mid,
                        n == mid * (n / mid) + n % mid,
                        n % mid < mid;
            }
            hi = mid;
        }
    }
    proof {
        assert(n < (lo + 1) * (lo + 1)) by (nonlinear_arith)
            requires lo + 1 >= hi, n < hi * hi, hi > 0;
    }
    lo as u64
}

/// Distance is symmetric: measuring from `a` to `b` and from `b` to
/// `a` gives the same result, because the squared distance is
/// symmetric and the floor square root of a value is unique.
pub proof fn lemma_distance_symmetric(a: Point, b: Point, d_ab: u64, d_ba: u64)
    requires
        is_sqrt_floor(a.dist_sq(b), d_ab as int),
        is_sqrt_floor(b.dist_sq(a), d_ba as int),
    ensures
        d_ab == d_ba,
{
    assert(a.dist_sq(b) == b.dist_sq(a)) by (nonlinear_arith);
    lemma_sqrt_floor_unique(a.dist_sq(b), d_ab as int, d_ba as int);
}

/// A non-negative value has exactly one floor square root.
pub proof fn lemma_sqrt_floor_unique(n: int, r1: int, r2: int)
    requires
        is_sqrt_floor(n, r1),
        is_sqrt_floor(n, r2),
    ensures
        r1 == r2,
{
    assert(!(r1 < r2) && !(r2 < r1)) by (nonlinear_arith)
        requires
            0 <= r1,
            0 <= r2,
            r1 * r1 <= n,
            n < (r1 + 1) * (r1 + 1),
            r2 * r2 <= n,
            n < (r2 + 1) * (r2 + 1);
}

/// An axis-aligned box anchored at its top-left corner. Containment,
/// intersection and center are meaningful for non-negative dimensions;
/// negative dimensions are tolerated but degenerate.
#[derive(Debug, Copy, Clone, PartialEq, Eq, Structural)]
pub struct Rect {
    pub x: i32,
    pub y: i32,
    pub width: i32,
    pub height: i32,
}

impl Rect {
    /// The dimensions are non-negative and the far corner is still
    /// representable as a coordinate.
    pub open spec fn well_formed(&self) -> bool {
        &&& 0 <= self.width
        &&& 0 <= self.height
        &&& self.x + self.width <= i32::MAX
        &&& self.y + self.height <= i32::MAX
    }

    /// The point lies inside the box; all four edges count as inside.
    pub open spec fn spec_contains(&self, point: Point) -> bool {
        &&& point.x >= self.x
        &&& point.x <= self.x + self.width
        &&& point.y >= self.y
        &&& point.y <= self.y + self.height
    }

    /// The two boxes overlap on a region of positive area. Boxes that
    /// share only an edge do not intersect.
    pub open spec fn spec_intersects(&self, other: Rect) -> bool {
        &&& self.x < other.x + other.width
        &&& self.x + self.width > other.x
        &&& self.y < other.y + other.height
        &&& self.y + self.height > other.y
    }

    pub fn new(x: i32, y: i32, width: i32, height: i32) -> (r: Rect)
        ensures
            r == (Rect { x, y, width, height }),
    {
        Rect { x, y, width, height }
    }

    /// Inclusive containment test: points on the boundary are inside.
    pub fn contains(&self, point: Point) -> (b: bool)
        ensures
            b == self.spec_contains(point),
    {
        point.x as i64 >= self.x as i64 && point.x as i64 <= self.x as i64 + self.width as i64
            && point.y as i64 >= self.y as i64 && point.y as i64 <= self.y as i64 + self.height as i64
    }

    /// The geometric center of the box.
    pub fn center(&self) -> (c: Point)
        requires
            self.well_formed(),
        ensures
            c.x == self.x + self.width / 2,
            c.y == self.y + self.height / 2,
    {
        Point { x: self.x + self.width / 2, y: self.y + self.height / 2 }
    }

    /// Strict intersection test: boxes that only touch along an edge
    /// report no intersection.
    pub fn intersects(&self, other: &Rect) -> (b: bool)
        ensures
            b == self.spec_intersects(*other),
    {
        (self.x as i64) < other.x as i64 + other.width as i64
            && self.x as i64 + self.width as i64 > other.x as i64
            && (self.y as i64) < other.y as i64 + other.height as i64
            && self.y as i64 + self.height as i64 > other.y as i64
    }
}

/// A point lying on any of the four edges of a box with non-negative
/// dimensions is contained in the box.
pub proof fn lemma_contains_edge_points(r: Rect, p: Point)
    requires
        0 <= r.width,
        0 <= r.height,
        r.x <= p.x <= r.x + r.width,
        r.y <= p.y <= r.y + r.height,
        p.x == r.x || p.x == r.x + r.width || p.y == r.y || p.y == r.y + r.height,
    ensures
        r.spec_contains(p),
{
}

/// Boxes that are separated, or that share only a boundary edge, do not
/// intersect: a separating axis with zero gap is enough.
pub proof fn lemma_touching_rects_do_not_intersect(a: Rect, b: Rect)
    requires
        a.x + a.width <= b.x || b.x + b.width <= a.x || a.y + a.height <= b.y || b.y + b.height
            <= a.y,
    ensures
        !a.spec_intersects(b),
{
}

/// A straight segment between two points.
#[derive(Debug, Copy, Clone, PartialEq, Eq, Structural)]
pub struct Line {
    pub start: Point,
    pub end: Point,
}

impl Line {
    pub fn new(start: Point, end: Point) -> (l: Line)
        ensures
            l == (Line { start, end }),
    {
        Line { start, end }
    }

    /// The segment's length, rounded down to an integer.
    pub fn length(&self) -> (d: u64)
        ensures
            is_sqrt_floor(self.start.dist_sq(self.end), d as int),
    {
        self.start.distance(self.end)
    }
}

/// A circle given by its center and radius.
#[derive(Debug, Copy, Clone, PartialEq, Eq, Structural)]
pub struct Circle {
    pub center: Point,
    pub radius: i32,
}

impl Circle {
    pub fn new(center: Point, radius: i32) -> (c: Circle)
        ensures
            c == (Circle { center, radius }),
    {
        Circle { center, radius }
    }
}

} // verus!
