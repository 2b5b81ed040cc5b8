//! Fixed-point angle arithmetic for rotary scrolling.
//!
//! The translator tracks the pointing angle of the touch point around the
//! touchpad center. Angles are carried as signed integers in microradians
//! (one millionth of a radian), so one full circle is about 6 283 186
//! units; the caller computes the angle of a touch point and hands it in
//! already scaled. Scroll logic only ever looks at differences of two
//! such angles, normalized onto one circle.

use vstd::prelude::*;
use vstd::arithmetic::div_mod::lemma_fundamental_div_mod_converse;
use vstd::arithmetic::div_mod::lemma_mod_bound;

verus! {

/// Pi in microradians, rounded to the nearest unit.
pub const PI_MICRORADIANS: i64 = 3_141_593;

/// A full circle in microradians.
pub const TWO_PI_MICRORADIANS: i64 = 6_283_186;

/// Minimum magnitude of angular change (0.1 radians) before a scroll
/// tick fires; smaller changes are jitter and are ignored entirely.
pub const SCROLL_DEADZONE_MICRORADIANS: i64 = 100_000;

/// The magnitude of an integer.
pub open spec fn spec_abs(x: int) -> int {
    if x < 0 {
        -x
    } else {
        x
    }
}

/// A raw angle difference normalized onto one circle: the circular
/// difference formula adds pi, wraps modulo a full circle, and subtracts
/// pi again, landing in [-pi, pi). Two angles that straddle the +-pi
/// boundary thus produce a small difference, never one near a full
/// circle.
pub open spec fn spec_wrap_angle(diff: int) -> int {
    (diff + PI_MICRORADIANS) % (TWO_PI_MICRORADIANS as int) - PI_MICRORADIANS
}

/// A normalized difference always lies in [-pi, pi), whatever raw
/// difference it came from.
pub proof fn lemma_wrap_angle_bounds(diff: int)
    ensures
        -PI_MICRORADIANS <= spec_wrap_angle(diff) < PI_MICRORADIANS,
{
    lemma_mod_bound(diff + PI_MICRORADIANS, TWO_PI_MICRORADIANS as int);
}

/// Normalize the difference of two angles onto one circle.
///
/// The input may be any difference of two angles that each lie within
/// [-pi, pi]; the result is the circular difference in [-pi, pi).
pub fn wrap_angle(diff: i64) -> (r: i64)
    requires
        -TWO_PI_MICRORADIANS <= diff <= TWO_PI_MICRORADIANS,
    ensures
        r == spec_wrap_angle(diff as int),
        -PI_MICRORADIANS <= r < PI_MICRORADIANS,
{
    let shifted: i64 = diff + PI_MICRORADIANS;
    let wrapped: i64 = if shifted < 0 {
        shifted + TWO_PI_MICRORADIANS
    } else if shifted >= TWO_PI_MICRORADIANS {
        shifted - TWO_PI_MICRORADIANS
    } else {
        shifted
    };
    proof {
        let s: int = diff + PI_MICRORADIANS;
        let m: int = TWO_PI_MICRORADIANS as int;
        if s < 0 {
            lemma_fundamental_div_mod_converse(s, m, -1, s + m);
        } else if s >= m {
            lemma_fundamental_div_mod_converse(s, m, 1, s - m);
        } else {
            lemma_fundamental_div_mod_converse(s, m, 0, s);
        }
    }
    wrapped - PI_MICRORADIANS
}

/// The magnitude of a normalized angle difference.
pub fn abs_angle(x: i64) -> (r: i64)
    requires
        x > i64::MIN,
    ensures
        r == spec_abs(x as int),
{
    if x < 0 {
        -x
    } else {
        x
    }
}

} // verus!
