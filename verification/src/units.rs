//! Whole-unit arithmetic that clamps instead of overflowing.
use vstd::prelude::*;

verus! {

/// The position nearest to `v` that an `i32` can hold.
pub open spec fn clamp_coord(v: int) -> i32 {
    if v < i32::MIN {
        i32::MIN
    } else if v > i32::MAX {
        i32::MAX
    } else {
        v as i32
    }
}

/// The length nearest to `v` that a `u32` can hold.
pub open spec fn clamp_len(v: int) -> u32 {
    if v < 0 {
        0
    } else if v > u32::MAX {
        u32::MAX
    } else {
        v as u32
    }
}

/// The smaller of two lengths.
pub open spec fn spec_min(a: int, b: int) -> int {
    if a <= b {
        a
    } else {
        b
    }
}

/// The larger of two lengths.
pub open spec fn spec_max(a: int, b: int) -> int {
    if a >= b {
        a
    } else {
        b
    }
}

/// Clamps a position to the range of `i32`.
pub fn coord(v: i64) -> (c: i32)
    ensures
        c == clamp_coord(v as int),
{
    if v < i32::MIN as i64 {
        i32::MIN
    } else if v > i32::MAX as i64 {
        i32::MAX
    } else {
        v as i32
    }
}

/// Clamps a length to the range of `u32`.
pub fn len(v: u128) -> (l: u32)
    ensures
        l == clamp_len(v as int),
{
    if v > u32::MAX as u128 {
        u32::MAX
    } else {
        v as u32
    }
}

/// The smaller of two lengths.
pub fn min(a: u32, b: u32) -> (m: u32)
    ensures
        m == spec_min(a as int, b as int),
{
    if a <= b {
        a
    } else {
        b
    }
}

/// The larger of two lengths.
pub fn max(a: u32, b: u32) -> (m: u32)
    ensures
        m == spec_max(a as int, b as int),
{
    if a >= b {
        a
    } else {
        b
    }
}

} // verus!
