//! Fixed-point circle table: sine and cosine in Q16 (scaled by 65536) at
//! 3-degree steps, 120 steps to the full circle.  The sweep resolutions
//! used by the mesh builder (60 and 120 segments) both divide this table,
//! so a wrapped index always reproduces the exact coordinates of the first
//! ring of vertices, which the closed-surface check depends on.

use vstd::prelude::*;

verus! {

/// Q16 sine for the first quadrant: `round(65536 * sin(3 * i degrees))`
/// for `0 <= i <= 30`.
pub open spec fn spec_qsin(i: int) -> int {
    if i == 0 {
        0
    } else if i == 1 {
        3430
    } else if i == 2 {
        6850
    } else if i == 3 {
        10252
    } else if i == 4 {
        13626
    } else if i == 5 {
        16962
    } else if i == 6 {
        20252
    } else if i == 7 {
        23486
    } else if i == 8 {
        26656
    } else if i == 9 {
        29753
    } else if i == 10 {
        32768
    } else if i == 11 {
        35693
    } else if i == 12 {
        38521
    } else if i == 13 {
        41243
    } else if i == 14 {
        43852
    } else if i == 15 {
        46341
    } else if i == 16 {
        48703
    } else if i == 17 {
        50931
    } else if i == 18 {
        53020
    } else if i == 19 {
        54963
    } else if i == 20 {
        56756
    } else if i == 21 {
        58393
    } else if i == 22 {
        59870
    } else if i == 23 {
        61183
    } else if i == 24 {
        62328
    } else if i == 25 {
        63303
    } else if i == 26 {
        64104
    } else if i == 27 {
        64729
    } else if i == 28 {
        65177
    } else if i == 29 {
        65446
    } else {
        65536
    }
}

pub proof fn lemma_qsin_bounds(i: int)
    ensures
        0 <= spec_qsin(i) <= 65536,
{
}

/// Q16 sine over the full circle, index in steps of 3 degrees.
pub open spec fn spec_sin_q16(j: int) -> int
    recommends
        0 <= j < 120,
{
    if j <= 30 {
        spec_qsin(j)
    } else if j <= 60 {
        spec_qsin(60 - j)
    } else if j <= 90 {
        -spec_qsin(j - 60)
    } else {
        -spec_qsin(120 - j)
    }
}

/// Q16 cosine over the full circle, as the sine shifted a quarter turn.
pub open spec fn spec_cos_q16(j: int) -> int
    recommends
        0 <= j < 120,
{
    spec_sin_q16((j + 30) % 120)
}

pub proof fn lemma_sin_q16_bounds(j: int)
    requires
        0 <= j < 120,
    ensures
        -65536 <= spec_sin_q16(j) <= 65536,
        -65536 <= spec_cos_q16(j) <= 65536,
{
    lemma_qsin_bounds(j);
    lemma_qsin_bounds(60 - j);
    lemma_qsin_bounds(j - 60);
    lemma_qsin_bounds(120 - j);
    let c = (j + 30) % 120;
    lemma_qsin_bounds(c);
    lemma_qsin_bounds(60 - c);
    lemma_qsin_bounds(c - 60);
    lemma_qsin_bounds(120 - c);
}

fn qsin(i: u64) -> (r: i64)
    requires
        i <= 30,
    ensures
        r == spec_qsin(i as int),
{
    match i {
        0 => 0,
        1 => 3430,
        2 => 6850,
        3 => 10252,
        4 => 13626,
        5 => 16962,
        6 => 20252,
        7 => 23486,
        8 => 26656,
        9 => 29753,
        10 => 32768,
        11 => 35693,
        12 => 38521,
        13 => 41243,
        14 => 43852,
        15 => 46341,
        16 => 48703,
        17 => 50931,
        18 => 53020,
        19 => 54963,
        20 => 56756,
        21 => 58393,
        22 => 59870,
        23 => 61183,
        24 => 62328,
        25 => 63303,
        26 => 64104,
        27 => 64729,
        28 => 65177,
        29 => 65446,
        _ => 65536,
    }
}

/// Q16 sine at `j` table steps around the circle.
pub fn sin_q16(j: u64) -> (r: i64)
    requires
        j < 120,
    ensures
        r == spec_sin_q16(j as int),
        -65536 <= r <= 65536,
{
    proof {
        lemma_sin_q16_bounds(j as int);
    }
    if j <= 30 {
        qsin(j)
    } else if j <= 60 {
        qsin(60 - j)
    } else if j <= 90 {
        -qsin(j - 60)
    } else {
        -qsin(120 - j)
    }
}

/// Q16 cosine at `j` table steps around the circle.
pub fn cos_q16(j: u64) -> (r: i64)
    requires
        j < 120,
    ensures
        r == spec_cos_q16(j as int),
        -65536 <= r <= 65536,
{
    proof {
        lemma_sin_q16_bounds(j as int);
    }
    sin_q16((j + 30) % 120)
}

} // verus!
