//! Sine and cosine for headings, in the fixed-point model.
//!
//! The ship only ever turns in whole 5-degree steps, so every heading the
//! games can reach is a multiple of 5 degrees in [0, 360). Sine and cosine on
//! those headings are given exactly by a lookup table scaled by 1000.

use vstd::prelude::*;

verus! {

/// Sine of `d` degrees, scaled by 1000, for multiples of 5 in [0, 90].
pub open spec fn sin_quadrant(d: int) -> int {
    if d == 0 {
        0
    } else if d == 5 {
        87
    } else if d == 10 {
        174
    } else if d == 15 {
        259
    } else if d == 20 {
        342
    } else if d == 25 {
        423
    } else if d == 30 {
        500
    } else if d == 35 {
        574
    } else if d == 40 {
        643
    } else if d == 45 {
        707
    } else if d == 50 {
        766
    } else if d == 55 {
        819
    } else if d == 60 {
        866
    } else if d == 65 {
        906
    } else if d == 70 {
        940
    } else if d == 75 {
        966
    } else if d == 80 {
        985
    } else if d == 85 {
        996
    } else {
        1000
    }
}

/// Sine of `d` degrees, scaled by 1000, for multiples of 5 in [0, 360).
pub open spec fn sin_milli(d: int) -> int {
    if d <= 90 {
        sin_quadrant(d)
    } else if d <= 180 {
        sin_quadrant(180 - d)
    } else if d <= 270 {
        -sin_quadrant(d - 180)
    } else {
        -sin_quadrant(360 - d)
    }
}

/// Cosine of `d` degrees, scaled by 1000, for multiples of 5 in [0, 360).
pub open spec fn cos_milli(d: int) -> int {
    if d < 270 {
        sin_milli(d + 90)
    } else {
        sin_milli(d - 270)
    }
}

pub proof fn lemma_sin_milli_bounds(d: int)
    ensures
        -1000 <= sin_milli(d) <= 1000,
        -1000 <= cos_milli(d) <= 1000,
{
}

fn sin_quadrant_lookup(d: i64) -> (r: i64)
    requires
        0 <= d <= 90,
    ensures
        r == sin_quadrant(d as int),
{
    if d == 0 {
        0
    } else if d == 5 {
        87
    } else if d == 10 {
        174
    } else if d == 15 {
        259
    } else if d == 20 {
        342
    } else if d == 25 {
        423
    } else if d == 30 {
        500
    } else if d == 35 {
        574
    } else if d == 40 {
        643
    } else if d == 45 {
        707
    } else if d == 50 {
        766
    } else if d == 55 {
        819
    } else if d == 60 {
        866
    } else if d == 65 {
        906
    } else if d == 70 {
        940
    } else if d == 75 {
        966
    } else if d == 80 {
        985
    } else if d == 85 {
        996
    } else {
        1000
    }
}

/// Sine of a heading in degrees, scaled by 1000.
pub fn sin_lookup(d: i64) -> (r: i64)
    requires
        0 <= d < 360,
    ensures
        r == sin_milli(d as int),
        -1000 <= r <= 1000,
{
    if d <= 90 {
        sin_quadrant_lookup(d)
    } else if d <= 180 {
        sin_quadrant_lookup(180 - d)
    } else if d <= 270 {
        -sin_quadrant_lookup(d - 180)
    } else {
        -sin_quadrant_lookup(360 - d)
    }
}

/// Cosine of a heading in degrees, scaled by 1000.
pub fn cos_lookup(d: i64) -> (r: i64)
    requires
        0 <= d < 360,
    ensures
        r == cos_milli(d as int),
        -1000 <= r <= 1000,
{
    if d < 270 {
        sin_lookup(d + 90)
    } else {
        sin_lookup(d - 270)
    }
}

} // verus!
