//! Angle conventions and normalization, in exact millidegrees.
//!
//! A "game angle" is the mathematical convention: measured counter-clockwise
//! from the positive x-axis. A "user angle" is the compass convention:
//! 0° = north (+y), 90° = east (+x), 180° = south, 270° = west, increasing
//! clockwise, always in [0°, 360°). One millidegree is a thousandth of a
//! degree, so a full turn is 360000 and a quarter turn 90000.

use vstd::prelude::*;

verus! {

/// Millidegrees in a full turn.
pub const FULL_TURN_MILLI: i64 = 360000;

/// Millidegrees in a quarter turn.
pub const QUARTER_TURN_MILLI: i64 = 90000;

/// The canonical representative of an angle in millidegrees: the unique value
/// in [0, 360000) that differs from `d` by a whole number of turns.
pub open spec fn norm_milli(d: int) -> int {
    d % (FULL_TURN_MILLI as int)
}

/// The game angle, in millidegrees, of a vector that lies on an axis or a
/// diagonal: the eight principal directions are the vectors whose `atan2`
/// angle is an exact multiple of a 45° half-quarter turn. The range follows
/// the `atan2` convention, (-180°, 180°] with the negative x-axis at +180°,
/// and the zero vector at 0. For any other vector the value is meaningless;
/// callers guard with the principal-direction test.
pub open spec fn octant_angle_milli(x: int, y: int) -> int {
    if y == 0 {
        if x >= 0 {
            0
        } else {
            180000
        }
    } else if x == 0 {
        if y > 0 {
            90000
        } else {
            -90000
        }
    } else if x == y {
        if x > 0 {
            45000
        } else {
            -135000
        }
    } else {
        if x > 0 {
            -45000
        } else {
            135000
        }
    }
}

/// The compass reads the cardinal points for vectors of every magnitude:
/// converting the game angle of a vector pointing east gives user angle 90°,
/// north gives 0°, west gives 270°, and south gives 180°.
pub proof fn lemma_compass_cardinal_points(x: int, y: int)
    ensures
        y == 0 && x > 0 ==> norm_milli(QUARTER_TURN_MILLI - octant_angle_milli(x, y)) == 90000,
        x == 0 && y > 0 ==> norm_milli(QUARTER_TURN_MILLI - octant_angle_milli(x, y)) == 0,
        y == 0 && x < 0 ==> norm_milli(QUARTER_TURN_MILLI - octant_angle_milli(x, y)) == 270000,
        x == 0 && y < 0 ==> norm_milli(QUARTER_TURN_MILLI - octant_angle_milli(x, y)) == 180000,
{
}

/// Brings a millidegree angle into [0, 360000) by whole turns, as the
/// compass convention asks.
pub fn normalize_milli(d: i64) -> (r: i64)
    ensures
        0 <= r < FULL_TURN_MILLI,
        r == norm_milli(d as int),
{
    let mut cur: i64 = d;
    while cur >= FULL_TURN_MILLI
        invariant
            norm_milli(cur as int) == norm_milli(d as int),
        decreases cur,
    {
        proof {
            vstd::arithmetic::div_mod::lemma_mod_sub_multiples_vanish(
                cur as int,
                FULL_TURN_MILLI as int,
            );
        }
        cur = cur - FULL_TURN_MILLI;
    }
    while cur < 0
        invariant
            cur < FULL_TURN_MILLI,
            norm_milli(cur as int) == norm_milli(d as int),
        decreases FULL_TURN_MILLI - cur,
    {
        proof {
            vstd::arithmetic::div_mod::lemma_mod_add_multiples_vanish(
                cur as int,
                FULL_TURN_MILLI as int,
            );
        }
        cur = cur + FULL_TURN_MILLI;
    }
    proof {
        vstd::arithmetic::div_mod::lemma_small_mod(cur as nat, FULL_TURN_MILLI as nat);
    }
    cur
}

} // verus!
