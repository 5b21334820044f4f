//! Points, Euclidean distance over integer coordinates, and the 8-way
//! cardinal classification used for corner cutting.

use vstd::prelude::*;

use crate::config::COORD_LIMIT;
use crate::config::CHECKPOINT_COORD_LIMIT;
use crate::config::MAX_DISTANCE;

verus! {

/// Floor of the square root of `n`, defined by counting up.
pub open spec fn isqrt_spec(n: nat) -> nat
    decreases n,
{
    if n == 0 {
        0
    } else {
        let r = isqrt_spec((n - 1) as nat);
        if (r + 1) * (r + 1) <= n {
            r + 1
        } else {
            r
        }
    }
}

/// `isqrt_spec(n)` is the unique `r` with `r * r <= n < (r + 1) * (r + 1)`.
pub proof fn lemma_isqrt_bounds(n: nat)
    ensures
        isqrt_spec(n) * isqrt_spec(n) <= n,
        n < (isqrt_spec(n) + 1) * (isqrt_spec(n) + 1),
    decreases n,
{
    if n == 0 {
        assert(isqrt_spec(0) == 0);
        assert((isqrt_spec(n) + 1) * (isqrt_spec(n) + 1) == 1) by (nonlinear_arith)
            requires
                isqrt_spec(n) == 0,
        ;
    } else {
        lemma_isqrt_bounds((n - 1) as nat);
        let r = isqrt_spec((n - 1) as nat);
        if (r + 1) * (r + 1) <= n {
            assert(isqrt_spec(n) == r + 1);
            assert(n - 1 < (r + 1) * (r + 1));
            assert(n == (r + 1) * (r + 1));
            assert((r + 1) * (r + 1) < (r + 1 + 1) * (r + 1 + 1)) by (nonlinear_arith);
            assert(n < (isqrt_spec(n) + 1) * (isqrt_spec(n) + 1));
        } else {
            assert(isqrt_spec(n) == r);
            assert(r * r <= n - 1 < n);
            assert(n < (r + 1) * (r + 1));
        }
    }
}

/// Any `r` sandwiched as `r * r <= n < (r + 1) * (r + 1)` equals `isqrt_spec(n)`.
pub proof fn lemma_isqrt_unique(n: nat, r: nat)
    requires
        r * r <= n,
        n < (r + 1) * (r + 1),
    ensures
        r == isqrt_spec(n),
{
    lemma_isqrt_bounds(n);
    let s = isqrt_spec(n);
    if r < s {
        assert((r + 1) * (r + 1) <= s * s) by (nonlinear_arith)
            requires
                r + 1 <= s,
        ;
    }
    if s < r {
        assert((s + 1) * (s + 1) <= r * r) by (nonlinear_arith)
            requires
                s + 1 <= r,
        ;
    }
}

/// If `n` is below a perfect square, so is its square root below the base.
pub proof fn lemma_isqrt_below(n: nat, b: nat)
    requires
        n < b * b,
    ensures
        isqrt_spec(n) < b,
{
    lemma_isqrt_bounds(n);
    let s = isqrt_spec(n);
    if s >= b {
        assert(b * b <= s * s) by (nonlinear_arith)
            requires
                b <= s,
        ;
    }
}

/// Floor of the square root of `n`.
pub fn isqrt(n: u64) -> (r: u64)
    ensures
        r == isqrt_spec(n as nat),
{
    let mut r: u64 = 0;
    loop
        invariant
            r * r <= n,
            r <= 0xFFFF_FFFFu64,
            r <= n,
        ensures
            r * r <= n,
            n < (r + 1) * (r + 1),
        decreases n - r,
    {
        let s: u128 = r as u128 + 1;
        proof {
            assert(s * s <= 0x1_0000_0000_0000_0000u128) by (nonlinear_arith)
                requires
                    s <= 0x1_0000_0000u128,
            ;
        }
        if s * s > n as u128 {
            break;
        }
        proof {
            assert(r + 1 <= n) by (nonlinear_arith)
                requires
                    (r + 1) * (r + 1) <= n,
            ;
            assert(r + 1 <= 0xFFFF_FFFFu64) by (nonlinear_arith)
                requires
                    (r + 1) * (r + 1) <= n,
                    n <= u64::MAX,
            ;
        }
        r = r + 1;
    }
    proof {
        lemma_isqrt_unique(n as nat, r as nat);
    }
    r
}

/// A 2D position or displacement with integer coordinates.
#[derive(Clone, Copy, Debug, PartialEq, Eq, Structural)]
pub struct Point {
    pub x: i64,
    pub y: i64,
}

/// Squared Euclidean distance between two points.
pub open spec fn dist_sq(a: Point, b: Point) -> int {
    (a.x - b.x) * (a.x - b.x) + (a.y - b.y) * (a.y - b.y)
}

/// Euclidean distance between two points, rounded down to an integer.
pub open spec fn distance(a: Point, b: Point) -> int {
    isqrt_spec(dist_sq(a, b) as nat) as int
}

/// The coordinate origin.
pub open spec fn origin() -> Point {
    Point { x: 0, y: 0 }
}

/// Law: the distance from any point to itself is zero.
pub proof fn lemma_distance_self_zero(a: Point)
    ensures
        distance(a, a) == 0,
{
    assert(dist_sq(a, a) == 0);
}

/// Law: distance is symmetric in its two arguments.
pub proof fn lemma_distance_symmetric(a: Point, b: Point)
    ensures
        distance(a, b) == distance(b, a),
{
    assert(dist_sq(a, b) == dist_sq(b, a)) by (nonlinear_arith);
}

impl Point {
    /// Coordinates small enough for every distance computation to stay in range.
    pub open spec fn in_range(self) -> bool {
        &&& -COORD_LIMIT <= self.x <= COORD_LIMIT
        &&& -COORD_LIMIT <= self.y <= COORD_LIMIT
    }

    /// Coordinates small enough for a checkpoint: a tuned (shifted) variant
    /// of such a point is still `in_range`.
    pub open spec fn checkpoint_in_range(self) -> bool {
        &&& -CHECKPOINT_COORD_LIMIT <= self.x <= CHECKPOINT_COORD_LIMIT
        &&& -CHECKPOINT_COORD_LIMIT <= self.y <= CHECKPOINT_COORD_LIMIT
    }

    pub fn new(x: i64, y: i64) -> (r: Self)
        ensures
            r == (Point { x, y }),
    {
        Self { x, y }
    }

    /// Componentwise difference `self - rhs`.
    pub fn sub(&self, rhs: &Point) -> (r: Point)
        requires
            self.in_range(),
            rhs.in_range(),
        ensures
            r.x == self.x - rhs.x,
            r.y == self.y - rhs.y,
    {
        Point { x: self.x - rhs.x, y: self.y - rhs.y }
    }

    /// Euclidean distance to `other`, rounded down.
    pub fn distance_to(&self, other: &Point) -> (r: i64)
        requires
            self.in_range(),
            other.in_range(),
        ensures
            r == distance(*self, *other),
            0 <= r < MAX_DISTANCE,
    {
        let diff = self.sub(other);
        let dx: i64 = diff.x;
        let dy: i64 = diff.y;
        proof {
            assert(dx * dx <= 4 * COORD_LIMIT * COORD_LIMIT) by (nonlinear_arith)
                requires
                    -2 * COORD_LIMIT <= dx <= 2 * COORD_LIMIT,
            ;
            assert(dy * dy <= 4 * COORD_LIMIT * COORD_LIMIT) by (nonlinear_arith)
                requires
                    -2 * COORD_LIMIT <= dy <= 2 * COORD_LIMIT,
            ;
            assert(dx * dx >= 0) by (nonlinear_arith);
            assert(dy * dy >= 0) by (nonlinear_arith);
        }
        let sq: i64 = dx * dx + dy * dy;
        let r = isqrt(sq as u64);
        proof {
            assert(sq as nat == dist_sq(*self, *other));
            assert((MAX_DISTANCE as nat) * (MAX_DISTANCE as nat) > sq as nat) by (nonlinear_arith)
                requires
                    0 <= sq <= 8 * COORD_LIMIT * COORD_LIMIT,
                    MAX_DISTANCE == 3 * COORD_LIMIT,
                    COORD_LIMIT == 50_000_000,
            ;
            lemma_isqrt_below(sq as nat, MAX_DISTANCE as nat);
        }
        r as i64
    }

    /// Distance from the origin: the Euclidean length of `self` as a vector.
    pub fn length(&self) -> (r: i64)
        requires
            self.in_range(),
        ensures
            r == distance(*self, origin()),
            0 <= r < MAX_DISTANCE,
    {
        self.distance_to(&Point::new(0, 0))
    }

    /// Classifies `other` relative to `self`, one axis at a time, with a
    /// dead zone of width `threshold` on each axis. The axis branches are
    /// checked in a fixed order: on each axis the positive direction wins
    /// whenever `threshold` overlaps both branches.
    pub fn compare(&self, other: &Point, threshold: i64) -> (r: Cardinal)
        ensures
            r == classify(*self, *other, threshold as int),
    {
        let y = if (other.y as i128) + (threshold as i128) > self.y as i128 {
            Cardinal::Down
        } else if (other.y as i128) - (threshold as i128) < self.y as i128 {
            Cardinal::Up
        } else {
            Cardinal::Neutral
        };

        let x = if (other.x as i128) + (threshold as i128) > self.x as i128 {
            Cardinal::Right
        } else if (other.x as i128) - (threshold as i128) < self.x as i128 {
            Cardinal::Left
        } else {
            Cardinal::Neutral
        };

        Cardinal::combine(x, y)
    }
}

/// An 8-way direction, or `Neutral` when neither axis leans anywhere.
#[derive(Clone, Copy, Debug, PartialEq, Eq, Structural)]
pub enum Cardinal {
    Neutral,
    Up,
    Right,
    Down,
    Left,
    UpRight,
    DownRight,
    DownLeft,
    UpLeft,
}

/// The 4-bit mask encoding of a direction: vertical bits `Up = 1`,
/// `Down = 4`; horizontal bits `Right = 2`, `Left = 8`.
pub open spec fn mask_of(c: Cardinal) -> u8 {
    match c {
        Cardinal::Neutral => 0,
        Cardinal::Up => 1,
        Cardinal::Right => 2,
        Cardinal::Down => 4,
        Cardinal::Left => 8,
        Cardinal::UpRight => 3,
        Cardinal::DownRight => 6,
        Cardinal::DownLeft => 12,
        Cardinal::UpLeft => 9,
    }
}

/// The direction named by a 4-bit mask; unrecognized patterns collapse
/// to `Neutral`.
pub open spec fn of_mask(m: u8) -> Cardinal {
    if m == 1 {
        Cardinal::Up
    } else if m == 2 {
        Cardinal::Right
    } else if m == 4 {
        Cardinal::Down
    } else if m == 8 {
        Cardinal::Left
    } else if m == 3 {
        Cardinal::UpRight
    } else if m == 6 {
        Cardinal::DownRight
    } else if m == 12 {
        Cardinal::DownLeft
    } else if m == 9 {
        Cardinal::UpLeft
    } else {
        Cardinal::Neutral
    }
}

/// The direction whose mask is the bitwise OR of the two argument masks.
pub open spec fn combine_spec(first: Cardinal, second: Cardinal) -> Cardinal {
    of_mask(mask_of(first) | mask_of(second))
}

/// Vertical lean of `other` relative to `a`: `Down` wins first, then `Up`.
pub open spec fn vertical_class(a: Point, other: Point, threshold: int) -> Cardinal {
    if other.y + threshold > a.y {
        Cardinal::Down
    } else if other.y - threshold < a.y {
        Cardinal::Up
    } else {
        Cardinal::Neutral
    }
}

/// Horizontal lean of `other` relative to `a`: `Right` wins first, then `Left`.
pub open spec fn horizontal_class(a: Point, other: Point, threshold: int) -> Cardinal {
    if other.x + threshold > a.x {
        Cardinal::Right
    } else if other.x - threshold < a.x {
        Cardinal::Left
    } else {
        Cardinal::Neutral
    }
}

/// Full 8-way classification of `other` relative to `a`.
pub open spec fn classify(a: Point, other: Point, threshold: int) -> Cardinal {
    combine_spec(horizontal_class(a, other, threshold), vertical_class(a, other, threshold))
}

impl Cardinal {
    /// The 4-bit mask of this direction.
    pub fn mask(self) -> (m: u8)
        ensures
            m == mask_of(self),
    {
        match self {
            Cardinal::Neutral => 0,
            Cardinal::Up => 1,
            Cardinal::Right => 2,
            Cardinal::Down => 4,
            Cardinal::Left => 8,
            Cardinal::UpRight => 3,
            Cardinal::DownRight => 6,
            Cardinal::DownLeft => 12,
            Cardinal::UpLeft => 9,
        }
    }

    /// ORs the two masks and maps the result back to a named direction,
    /// defaulting to `Neutral` for any unrecognized bit pattern.
    pub fn combine(first: Self, second: Self) -> (r: Self)
        ensures
            r == combine_spec(first, second),
    {
        let combined: u8 = first.mask() | second.mask();
        match combined {
            1 => Cardinal::Up,
            2 => Cardinal::Right,
            4 => Cardinal::Down,
            8 => Cardinal::Left,
            3 => Cardinal::UpRight,
            6 => Cardinal::DownRight,
            12 => Cardinal::DownLeft,
            9 => Cardinal::UpLeft,
            _ => Cardinal::Neutral,
        }
    }
}

} // verus!
