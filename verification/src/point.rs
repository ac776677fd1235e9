//! The planar vector type and its exact geometric operations.

use vstd::prelude::*;

verus! {

/// The floor of the real square root of `n`: the unique `r` with
/// `r² <= n < (r + 1)²` (see `lemma_isqrt_spec_bounds`).
pub open spec fn isqrt_spec(n: nat) -> nat
    decreases n,
{
    if n == 0 {
        0
    } else {
        let r = isqrt_spec((n - 1) as nat);
        if (r + 1) * (r + 1) <= n {
            r + 1
        } else {
            r
        }
    }
}

/// `isqrt_spec(n)` is the floor of the real square root: its square is at
/// most `n`, and the next square is beyond `n`.
pub proof fn lemma_isqrt_spec_bounds(n: nat)
    ensures
        isqrt_spec(n) * isqrt_spec(n) <= n,
        n < (isqrt_spec(n) + 1) * (isqrt_spec(n) + 1),
    decreases n,
{
    if n > 0 {
        lemma_isqrt_spec_bounds((n - 1) as nat);
        let r = isqrt_spec((n - 1) as nat);
        if (r + 1) * (r + 1) <= n {
            assert(isqrt_spec(n) == r + 1);
            assert(n == (r + 1) * (r + 1));
            assert(n < (isqrt_spec(n) + 1) * (isqrt_spec(n) + 1)) by (nonlinear_arith)
                requires
                    isqrt_spec(n) == r + 1,
                    n == (r + 1) * (r + 1),
            ;
            assert(isqrt_spec(n) * isqrt_spec(n) <= n);
        } else {
            assert(isqrt_spec(n) == r);
            assert(isqrt_spec(n) * isqrt_spec(n) <= n) by (nonlinear_arith)
                requires
                    isqrt_spec(n) == r,
                    r * r <= n - 1,
                    n >= 1,
            ;
            assert(n < (isqrt_spec(n) + 1) * (isqrt_spec(n) + 1)) by (nonlinear_arith)
                requires
                    isqrt_spec(n) == r,
                    n < (r + 1) * (r + 1),
            ;
        }
    } else {
        assert(isqrt_spec(n) == 0);
        assert(isqrt_spec(n) * isqrt_spec(n) <= n) by (nonlinear_arith)
            requires
                n == 0,
                isqrt_spec(n) == 0,
        ;
        assert(n < (isqrt_spec(n) + 1) * (isqrt_spec(n) + 1)) by (nonlinear_arith)
            requires
                n == 0,
                isqrt_spec(n) == 0,
        ;
    }
}

/// No two values satisfy the floor characterization: anything squeezed
/// between the same consecutive squares as `isqrt_spec(n)` equals it.
pub proof fn lemma_isqrt_unique(n: nat, r: nat)
    requires
        r * r <= n,
        n < (r + 1) * (r + 1),
    ensures
        r == isqrt_spec(n),
{
    lemma_isqrt_spec_bounds(n);
    let s = isqrt_spec(n);
    if r < s {
        assert((r + 1) * (r + 1) <= s * s) by (nonlinear_arith)
            requires
                r < s,
        ;
    }
    if s < r {
        assert((s + 1) * (s + 1) <= r * r) by (nonlinear_arith)
            requires
                s < r,
        ;
    }
}

/// The square root of a perfect square is recovered exactly: the floor
/// square root of `m²` is `m`.
pub proof fn lemma_isqrt_of_square(m: nat)
    ensures
        isqrt_spec(m * m) == m,
{
    assert(m * m < (m + 1) * (m + 1)) by (nonlinear_arith);
    lemma_isqrt_unique(m * m, m);
}

/// Floor square root by binary search over the 32-bit range that can hold it.
fn isqrt(n: u64) -> (r: u64)
    ensures
        r <= 0xFFFF_FFFF,
        r == isqrt_spec(n as nat),
        r * r <= n < (r + 1) * (r + 1),
{
    let mut lo: u64 = 0;
    let mut hi: u64 = 0xFFFF_FFFF;
    while lo < hi
        invariant
            lo <= hi <= 0xFFFF_FFFF,
            lo * lo <= n,
            n < (hi + 1) * (hi + 1),
        decreases hi - lo,
    {
        let mid: u64 = lo + (hi - lo + 1) / 2;
        proof {
            assert(mid * mid <= 0xFFFF_FFFF * 0xFFFF_FFFF) by (nonlinear_arith)
                requires
                    mid <= 0xFFFF_FFFF,
            ;
        }
        if mid * mid <= n {
            lo = mid;
        } else {
            hi = mid - 1;
        }
    }
    proof {
        lemma_isqrt_unique(n as nat, lo as nat);
    }
    lo
}

/// A point in the plane, or a displacement vector; the two roles share one
/// type. Coordinates are exact integers, so every finite value is represented
/// precisely and equality is exact field-wise equality.
#[derive(Clone, Copy, Debug, PartialEq, Eq, Structural)]
pub struct Point {
    pub x: i64,
    pub y: i64,
}

impl Point {
    /// The squared magnitude `x² + y²` as a mathematical integer.
    pub open spec fn squared_spec(self) -> int {
        self.x * self.x + self.y * self.y
    }

    /// Returns the squared magnitude `x² + y²`, exactly.
    pub fn squared(&self) -> (r: i64)
        requires
            self.squared_spec() <= i64::MAX,
        ensures
            r == self.squared_spec(),
            r >= 0,
    {
        proof {
            assert(self.x * self.x >= 0) by (nonlinear_arith);
            assert(self.y * self.y >= 0) by (nonlinear_arith);
        }
        let xx: i64 = self.x * self.x;
        let yy: i64 = self.y * self.y;
        xx + yy
    }

    /// The magnitude, rounded down to an integer: the floor of the real
    /// square root of the squared magnitude.
    pub open spec fn abs_spec(self) -> int {
        isqrt_spec(self.squared_spec() as nat) as int
    }

    /// Returns the magnitude (Euclidean length), rounded down: the unique
    /// `r >= 0` with `r² <= x² + y² < (r + 1)²`. For the zero vector this
    /// is 0, and it is exact whenever the squared magnitude is a perfect
    /// square.
    pub fn abs(&self) -> (r: i64)
        requires
            self.squared_spec() <= i64::MAX,
        ensures
            r == self.abs_spec(),
            r >= 0,
            r * r <= self.squared_spec() < (r + 1) * (r + 1),
    {
        let sq: i64 = self.squared();
        let root: u64 = isqrt(sq as u64);
        root as i64
    }

    /// Returns the unit (normalized) vector, where exact coordinates can
    /// hold it: for an axis-aligned non-zero vector the unit vector is
    /// `self / abs()`, with components 0 and ±1. Any other unit vector has
    /// a fractional component, and the zero vector has no direction, so
    /// those return `None`. A unit vector scaled back by the magnitude is
    /// the original vector, and its own magnitude is 1.
    pub fn unit(&self) -> (r: Option<Point>)
        ensures
            r is Some <==> ((self.x == 0) != (self.y == 0)),
            match r {
                Some(u) => {
                    &&& u.squared_spec() == 1
                    &&& u.abs_spec() == 1
                    &&& u.x * self.abs_spec() == self.x
                    &&& u.y * self.abs_spec() == self.y
                },
                None => true,
            },
    {
        if self.x != 0 && self.y == 0 {
            let u = if self.x > 0 {
                Point { x: 1, y: 0 }
            } else {
                Point { x: -1, y: 0 }
            };
            proof {
                let m = if self.x > 0 { self.x as nat } else { (-self.x) as nat };
                assert(self.squared_spec() == m * m) by (nonlinear_arith)
                    requires
                        self.y == 0,
                        m == if self.x > 0 { self.x as int } else { -self.x as int },
                ;
                lemma_isqrt_of_square(m);
                assert(u.squared_spec() == 1) by (nonlinear_arith)
                    requires
                        u.y == 0int,
                        u.x == 1int || u.x == -1int,
                ;
                lemma_isqrt_of_square(1nat);
                assert(u.x * self.abs_spec() == self.x && u.y * self.abs_spec() == self.y)
                    by (nonlinear_arith)
                    requires
                        self.abs_spec() == m,
                        self.y == 0,
                        u.y == 0int,
                        (u.x == 1int && m == self.x as int) || (u.x == -1int && m == -self.x
                            as int),
                ;
            }
            Some(u)
        } else if self.x == 0 && self.y != 0 {
            let u = if self.y > 0 {
                Point { x: 0, y: 1 }
            } else {
                Point { x: 0, y: -1 }
            };
            proof {
                let m = if self.y > 0 { self.y as nat } else { (-self.y) as nat };
                assert(self.squared_spec() == m * m) by (nonlinear_arith)
                    requires
                        self.x == 0,
                        m == if self.y > 0 { self.y as int } else { -self.y as int },
                ;
                lemma_isqrt_of_square(m);
                assert(u.squared_spec() == 1) by (nonlinear_arith)
                    requires
                        u.x == 0int,
                        u.y == 1int || u.y == -1int,
                ;
                lemma_isqrt_of_square(1nat);
                assert(u.x * self.abs_spec() == self.x && u.y * self.abs_spec() == self.y)
                    by (nonlinear_arith)
                    requires
                        self.abs_spec() == m,
                        self.x == 0,
                        u.x == 0int,
                        (u.y == 1int && m == self.y as int) || (u.y == -1int && m == -self.y
                            as int),
                ;
            }
            Some(u)
        } else {
            None
        }
    }

    /// The component-wise sum, as long as both sums stay in range.
    pub open spec fn add_spec(self, other: Point) -> Point {
        Point { x: (self.x + other.x) as i64, y: (self.y + other.y) as i64 }
    }

    /// Returns the component-wise sum of two vectors.
    pub fn add(&self, other: &Point) -> (r: Point)
        requires
            i64::MIN <= self.x + other.x <= i64::MAX,
            i64::MIN <= self.y + other.y <= i64::MAX,
        ensures
            r == self.add_spec(*other),
            r.x == self.x + other.x,
            r.y == self.y + other.y,
    {
        Point { x: self.x + other.x, y: self.y + other.y }
    }

    /// The component-wise difference, as long as both differences stay in
    /// range.
    pub open spec fn sub_spec(self, other: Point) -> Point {
        Point { x: (self.x - other.x) as i64, y: (self.y - other.y) as i64 }
    }

    /// Returns the component-wise difference `self - other`.
    pub fn sub(&self, other: &Point) -> (r: Point)
        requires
            i64::MIN <= self.x - other.x <= i64::MAX,
            i64::MIN <= self.y - other.y <= i64::MAX,
        ensures
            r == self.sub_spec(*other),
            r.x == self.x - other.x,
            r.y == self.y - other.y,
    {
        Point { x: self.x - other.x, y: self.y - other.y }
    }

    /// The squared Euclidean distance between two points.
    pub open spec fn dist_sq(self, other: Point) -> int {
        (self.x - other.x) * (self.x - other.x) + (self.y - other.y) * (self.y - other.y)
    }

    /// Returns the Euclidean distance between two points, rounded down:
    /// the floor of the real square root of the squared distance.
    pub fn distance_to(&self, other: &Point) -> (r: i64)
        requires
            i64::MIN <= self.x - other.x <= i64::MAX,
            i64::MIN <= self.y - other.y <= i64::MAX,
            self.dist_sq(*other) <= i64::MAX,
        ensures
            r == isqrt_spec(self.dist_sq(*other) as nat),
            r >= 0,
    {
        let diff = self.sub(other);
        diff.abs()
    }

    /// Returns the unit vector that moves from `self` toward `other`, where
    /// exact coordinates can hold it: for an axis-aligned displacement it is
    /// the displacement's unit vector, and for coincident points it is
    /// `(1, 0)` — the direction of game angle 0, a degenerate but
    /// deterministic choice. Any other direction has fractional components,
    /// so it is `None`.
    pub fn movement_to(&self, other: &Point) -> (r: Option<Point>)
        requires
            i64::MIN <= other.x - self.x <= i64::MAX,
            i64::MIN <= other.y - self.y <= i64::MAX,
        ensures
            ({
                let d = other.sub_spec(*self);
                &&& (r is Some <==> (d.x == 0 || d.y == 0))
                &&& (d.x == 0 && d.y == 0 ==> r == Some((Point { x: 1i64, y: 0i64 })))
                &&& match r {
                    Some(u) => {
                        &&& u.squared_spec() == 1
                        &&& u.abs_spec() == 1
                        &&& u.x * d.abs_spec() == d.x
                        &&& u.y * d.abs_spec() == d.y
                    },
                    None => true,
                }
            }),
    {
        let d = other.sub(self);
        if d.x == 0 && d.y == 0 {
            let u = Point { x: 1, y: 0 };
            proof {
                assert(u.squared_spec() == 1 && d.squared_spec() == 0) by (nonlinear_arith)
                    requires
                        u.x == 1int,
                        u.y == 0int,
                        d.x == 0int,
                        d.y == 0int,
                ;
                lemma_isqrt_of_square(1nat);
                lemma_isqrt_of_square(0nat);
                assert(u.x * d.abs_spec() == d.x && u.y * d.abs_spec() == d.y)
                    by (nonlinear_arith)
                    requires
                        d.abs_spec() == 0,
                        d.x == 0int,
                        d.y == 0int,
                ;
            }
            Some(u)
        } else {
            d.unit()
        }
    }

    /// The vector turned counter-clockwise by `quarters` quarter turns. The
    /// rotation matrix of a quarter turn has entries 0 and ±1, so these are
    /// the rotations an exact vector survives unchanged.
    pub open spec fn rotated_spec(self, quarters: int) -> Point {
        let q = quarters % 4;
        if q == 0 {
            self
        } else if q == 1 {
            Point { x: (-self.y) as i64, y: self.x }
        } else if q == 2 {
            Point { x: (-self.x) as i64, y: (-self.y) as i64 }
        } else {
            Point { x: self.y, y: (-self.x) as i64 }
        }
    }

    /// Returns the vector rotated counter-clockwise by `quarters` quarter
    /// turns: zero turns is the identity, and a half turn negates both
    /// components, exactly.
    pub fn rotated(&self, quarters: u32) -> (r: Point)
        requires
            self.x > i64::MIN,
            self.y > i64::MIN,
        ensures
            r == self.rotated_spec(quarters as int),
            quarters % 4 == 0 ==> r == *self,
            quarters % 4 == 2 ==> r.x == -self.x && r.y == -self.y,
    {
        let q: u32 = quarters % 4;
        if q == 0 {
            *self
        } else if q == 1 {
            Point { x: -self.y, y: self.x }
        } else if q == 2 {
            Point { x: -self.x, y: -self.y }
        } else {
            Point { x: self.y, y: -self.x }
        }
    }

    /// Returns the vector's own game angle in millidegrees, where exact
    /// arithmetic can give it: on the eight principal directions — the axes
    /// and the diagonals — the angle is an exact multiple of 45°, in the
    /// `atan2` range (-180°, 180°] with the zero vector at 0. Any other
    /// angle is irrational in degrees, so it is `None`.
    pub fn angle(&self) -> (r: Option<i64>)
        ensures
            r is Some <==> (self.y == 0 || self.x == 0 || self.x == self.y || self.x + self.y
                == 0),
            r matches Some(a) ==> a == crate::angle::octant_angle_milli(
                self.x as int,
                self.y as int,
            ),
            r matches Some(a) ==> -180000 < a <= 180000,
    {
        if self.y == 0 {
            if self.x >= 0 {
                Some(0)
            } else {
                Some(180000)
            }
        } else if self.x == 0 {
            if self.y > 0 {
                Some(90000)
            } else {
                Some(-90000)
            }
        } else if self.x == self.y {
            if self.x > 0 {
                Some(45000)
            } else {
                Some(-135000)
            }
        } else if (self.x > 0) != (self.y > 0) && self.x + self.y == 0 {
            if self.x > 0 {
                Some(-45000)
            } else {
                Some(135000)
            }
        } else {
            None
        }
    }

    /// Returns the game angle, in millidegrees, of the displacement from
    /// `self` to `other`, where exact arithmetic can give it: displacements
    /// along the eight principal directions, with coincident points at 0 by
    /// the `atan2` convention. Any other displacement's angle is irrational
    /// in degrees, so it is `None`.
    pub fn angle_to(&self, other: &Point) -> (r: Option<i64>)
        requires
            i64::MIN <= other.x - self.x <= i64::MAX,
            i64::MIN <= other.y - self.y <= i64::MAX,
        ensures
            ({
                let d = other.sub_spec(*self);
                &&& (r is Some <==> (d.y == 0 || d.x == 0 || d.x == d.y || d.x + d.y == 0))
                &&& (r matches Some(a) ==> a == crate::angle::octant_angle_milli(
                    d.x as int,
                    d.y as int,
                ))
                &&& (*self == *other ==> r == Some(0i64))
            }),
    {
        let d = other.sub(self);
        d.angle()
    }

    /// Returns the compass-style "user angle" of the vector in millidegrees,
    /// given its mathematical "game angle" `game_angle_milli` in
    /// millidegrees (counter-clockwise from the positive x-axis, as `atan2`
    /// measures it). The conversion is `90° - game angle`, normalized into
    /// [0°, 360°); the zero vector is 0 by convention — north — rather than
    /// the 90 that the formula would give it.
    pub fn user_angle(&self, game_angle_milli: i64) -> (r: i64)
        requires
            game_angle_milli > i64::MIN + crate::angle::QUARTER_TURN_MILLI,
        ensures
            self.x == 0 && self.y == 0 ==> r == 0,
            !(self.x == 0 && self.y == 0) ==> r == crate::angle::norm_milli(
                crate::angle::QUARTER_TURN_MILLI - game_angle_milli,
            ),
            0 <= r < crate::angle::FULL_TURN_MILLI,
    {
        if self.x == 0 && self.y == 0 {
            0
        } else {
            let d: i64 = crate::angle::QUARTER_TURN_MILLI - game_angle_milli;
            crate::angle::normalize_milli(d)
        }
    }
}

/// Subtracting a vector and then adding it back returns the original vector
/// exactly; integer coordinates need no tolerance.
pub proof fn lemma_sub_add_cancel(a: Point, b: Point)
    requires
        i64::MIN <= a.x - b.x <= i64::MAX,
        i64::MIN <= a.y - b.y <= i64::MAX,
    ensures
        a.sub_spec(b).add_spec(b) == a,
{
}

/// The distance between two points is the magnitude of their difference:
/// the squared distance equals the squared magnitude of `a - b`, so
/// `distance_to` returns exactly what `sub` followed by `abs` returns.
pub proof fn lemma_distance_is_diff_magnitude(a: Point, b: Point)
    requires
        i64::MIN <= a.x - b.x <= i64::MAX,
        i64::MIN <= a.y - b.y <= i64::MAX,
    ensures
        a.sub_spec(b).squared_spec() == a.dist_sq(b),
        a.sub_spec(b).abs_spec() == isqrt_spec(a.dist_sq(b) as nat),
{
}

/// Distance is symmetric: the distance from `a` to `b` equals the distance
/// from `b` to `a`, both as squared distances and after the floor square
/// root that `distance_to` returns.
pub proof fn lemma_distance_symmetric(a: Point, b: Point)
    ensures
        a.dist_sq(b) == b.dist_sq(a),
        isqrt_spec(a.dist_sq(b) as nat) == isqrt_spec(b.dist_sq(a) as nat),
{
    assert((a.x - b.x) * (a.x - b.x) == (b.x - a.x) * (b.x - a.x)) by (nonlinear_arith);
    assert((a.y - b.y) * (a.y - b.y) == (b.y - a.y) * (b.y - a.y)) by (nonlinear_arith);
}

} // verus!
