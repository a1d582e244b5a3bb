//! Deflection profile of the paddle bounce.
//!
//! The bounce rules turn an impact angle into velocity components
//! through a sine and a cosine. This module fixes the library's own
//! deflection profile: a polynomial sine and cosine over milliradian
//! angles, with values in milli-units (`sin_milli(873)` is the profile's
//! sine of 0.873 rad, scaled by 1000). The profile saturates beyond half
//! a turn either way; inside the nominal deflection range it tracks the
//! trigonometric functions closely, and every caller's contract speaks
//! of the profile itself, not of the real-valued functions.

use vstd::prelude::*;
use vstd::arithmetic::div_mod::{lemma_div_is_ordered, lemma_div_pos_is_pos};
use vstd::arithmetic::mul::{lemma_mul_nonnegative, lemma_mul_upper_bound};

verus! {

/// Half a turn in milliradians; profile arguments are clamped to it.
pub const ANGLE_CLAMP: i64 = 3142;

/// All profile values lie strictly inside this magnitude.
pub const PROFILE_BOUND: i64 = 6000;

/// Argument clamp: angles are cut off at half a turn either way.
pub open spec fn clamp_angle(x: int) -> int {
    if x > ANGLE_CLAMP {
        ANGLE_CLAMP as int
    } else if x < -ANGLE_CLAMP {
        -ANGLE_CLAMP as int
    } else {
        x
    }
}

/// Sine polynomial on a clamped, non-negative milliradian magnitude.
pub open spec fn sin_mag(m: int) -> int {
    m - (m * m * m) / 6_000_000 + (m * m * m * m * m) / 120_000_000_000_000
}

/// Cosine polynomial on a clamped, non-negative milliradian magnitude.
pub open spec fn cos_mag(m: int) -> int {
    1000 - (m * m) / 2000 + ((m * m) * (m * m)) / 24_000_000_000 - ((((m * m) * (m * m))
        / 1_000_000) * (m * m)) / 720_000_000_000
}

/// The profile's sine: odd in its argument, clamped at half a turn.
pub open spec fn sin_milli_spec(x: int) -> int {
    let c = clamp_angle(x);
    if c >= 0 {
        sin_mag(c)
    } else {
        -sin_mag(-c)
    }
}

/// The profile's cosine: even in its argument, clamped at half a turn.
pub open spec fn cos_milli_spec(x: int) -> int {
    let c = clamp_angle(x);
    if c >= 0 {
        cos_mag(c)
    } else {
        cos_mag(-c)
    }
}

/// Bounds of the sine polynomial over the clamped magnitude range.
pub proof fn lemma_sin_mag_bound(m: int)
    requires
        0 <= m <= ANGLE_CLAMP,
    ensures
        -PROFILE_BOUND < sin_mag(m) < PROFILE_BOUND,
{
    let m3 = m * m * m;
    let m5 = m * m * m * m * m;
    lemma_mul_nonnegative(m, m);
    lemma_mul_nonnegative(m * m, m);
    lemma_mul_nonnegative(m * m * m, m);
    lemma_mul_nonnegative(m * m * m * m, m);
    lemma_mul_upper_bound(m, 3142, m, 3142);
    lemma_mul_upper_bound(m * m, 9_872_164, m, 3142);
    lemma_mul_upper_bound(m * m * m, 31_018_339_288, m, 3142);
    lemma_mul_upper_bound(m * m * m * m, 97_459_622_042_896, m, 3142);
    lemma_div_pos_is_pos(m3, 6_000_000);
    lemma_div_is_ordered(m3, 31_018_339_288, 6_000_000);
    lemma_div_pos_is_pos(m5, 120_000_000_000_000);
    lemma_div_is_ordered(m5, 306_218_132_458_779_232, 120_000_000_000_000);
}

/// Bounds of the cosine polynomial over the clamped magnitude range.
pub proof fn lemma_cos_mag_bound(m: int)
    requires
        0 <= m <= ANGLE_CLAMP,
    ensures
        -PROFILE_BOUND < cos_mag(m) < PROFILE_BOUND,
{
    let m2 = m * m;
    let m4 = (m * m) * (m * m);
    lemma_mul_nonnegative(m, m);
    lemma_mul_upper_bound(m, 3142, m, 3142);
    lemma_mul_nonnegative(m2, m2);
    lemma_mul_upper_bound(m2, 9_872_164, m2, 9_872_164);
    lemma_div_pos_is_pos(m2, 2000);
    lemma_div_is_ordered(m2, 9_872_164, 2000);
    lemma_div_pos_is_pos(m4, 24_000_000_000);
    lemma_div_is_ordered(m4, 97_459_622_042_896, 24_000_000_000);
    let q = m4 / 1_000_000;
    lemma_div_pos_is_pos(m4, 1_000_000);
    lemma_div_is_ordered(m4, 97_459_622_042_896, 1_000_000);
    lemma_mul_nonnegative(q, m2);
    lemma_mul_upper_bound(q, 97_459_622, m2, 9_872_164);
    lemma_div_pos_is_pos(q * m2, 720_000_000_000);
    lemma_div_is_ordered(q * m2, 962_137_371_762_008, 720_000_000_000);
}

/// Bounds of the profile's sine for every angle.
pub proof fn lemma_sin_milli_bound(x: int)
    ensures
        -PROFILE_BOUND < sin_milli_spec(x) < PROFILE_BOUND,
{
    let c = clamp_angle(x);
    if c >= 0 {
        lemma_sin_mag_bound(c);
    } else {
        lemma_sin_mag_bound(-c);
    }
}

/// Bounds of the profile's cosine for every angle.
pub proof fn lemma_cos_milli_bound(x: int)
    ensures
        -PROFILE_BOUND < cos_milli_spec(x) < PROFILE_BOUND,
{
    let c = clamp_angle(x);
    if c >= 0 {
        lemma_cos_mag_bound(c);
    } else {
        lemma_cos_mag_bound(-c);
    }
}

/// The profile's sine of a milliradian angle, in milli-units.
pub fn sin_milli(x: i64) -> (r: i64)
    ensures
        r == sin_milli_spec(x as int),
{
    let c: i64 = if x > ANGLE_CLAMP {
        ANGLE_CLAMP
    } else if x < -ANGLE_CLAMP {
        -ANGLE_CLAMP
    } else {
        x
    };
    let m: u64 = if c >= 0 {
        c as u64
    } else {
        (-c) as u64
    };
    proof {
        lemma_mul_nonnegative(m as int, m as int);
        lemma_mul_upper_bound(m as int, 3142, m as int, 3142);
        lemma_mul_nonnegative((m * m) as int, m as int);
        lemma_mul_upper_bound((m * m) as int, 9_872_164, m as int, 3142);
        lemma_mul_nonnegative((m * m * m) as int, m as int);
        lemma_mul_upper_bound((m * m * m) as int, 31_018_339_288, m as int, 3142);
        lemma_mul_nonnegative((m * m * m * m) as int, m as int);
        lemma_mul_upper_bound((m * m * m * m) as int, 97_459_622_042_896, m as int, 3142);
        lemma_div_pos_is_pos((m * m * m) as int, 6_000_000);
        lemma_div_is_ordered((m * m * m) as int, 31_018_339_288, 6_000_000);
        lemma_div_pos_is_pos((m * m * m * m * m) as int, 120_000_000_000_000);
        lemma_div_is_ordered(
            (m * m * m * m * m) as int,
            306_218_132_458_779_232,
            120_000_000_000_000,
        );
    }
    let t3: u64 = (m * m * m) / 6_000_000;
    let t5: u64 = (m * m * m * m * m) / 120_000_000_000_000;
    let mag: i64 = (m as i64) - (t3 as i64) + (t5 as i64);
    if c >= 0 {
        mag
    } else {
        -mag
    }
}

/// The profile's cosine of a milliradian angle, in milli-units.
pub fn cos_milli(x: i64) -> (r: i64)
    ensures
        r == cos_milli_spec(x as int),
{
    let c: i64 = if x > ANGLE_CLAMP {
        ANGLE_CLAMP
    } else if x < -ANGLE_CLAMP {
        -ANGLE_CLAMP
    } else {
        x
    };
    let m: u64 = if c >= 0 {
        c as u64
    } else {
        (-c) as u64
    };
    proof {
        lemma_mul_nonnegative(m as int, m as int);
        lemma_mul_upper_bound(m as int, 3142, m as int, 3142);
        lemma_mul_nonnegative((m * m) as int, (m * m) as int);
        lemma_mul_upper_bound((m * m) as int, 9_872_164, (m * m) as int, 9_872_164);
        lemma_div_pos_is_pos((m * m) as int, 2000);
        lemma_div_is_ordered((m * m) as int, 9_872_164, 2000);
        lemma_div_pos_is_pos(((m * m) * (m * m)) as int, 24_000_000_000);
        lemma_div_is_ordered(((m * m) * (m * m)) as int, 97_459_622_042_896, 24_000_000_000);
        lemma_div_pos_is_pos(((m * m) * (m * m)) as int, 1_000_000);
        lemma_div_is_ordered(((m * m) * (m * m)) as int, 97_459_622_042_896, 1_000_000);
    }
    let m2: u64 = m * m;
    let m4: u64 = m2 * m2;
    let t2: u64 = m2 / 2000;
    let t4: u64 = m4 / 24_000_000_000;
    let q: u64 = m4 / 1_000_000;
    proof {
        lemma_mul_nonnegative(q as int, m2 as int);
        lemma_mul_upper_bound(q as int, 97_459_622, m2 as int, 9_872_164);
        lemma_div_pos_is_pos((q * m2) as int, 720_000_000_000);
        lemma_div_is_ordered((q * m2) as int, 962_137_371_762_008, 720_000_000_000);
    }
    let t6: u64 = (q * m2) / 720_000_000_000;
    1000 - (t2 as i64) + (t4 as i64) - (t6 as i64)
}

} // verus!
