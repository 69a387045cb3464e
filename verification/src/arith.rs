use vstd::prelude::*;

verus! {

/// `v` held between `lo` and `hi` as `max` then `min` would hold it.
pub open spec fn clamp_int(v: int, lo: int, hi: int) -> int {
    let a = if v < lo { lo } else { v };
    if a > hi { hi } else { a }
}

/// Saturating 32-bit addition.
pub open spec fn sat_add_i32(a: int, b: int) -> i32 {
    clamp_int(a + b, i32::MIN as int, i32::MAX as int) as i32
}

/// Saturating absolute value of a 32-bit value.
pub open spec fn sat_abs_i32(a: i32) -> i32 {
    if a == i32::MIN {
        i32::MAX
    } else if a < 0 {
        -a as i32
    } else {
        a
    }
}

/// Division rounding toward zero, for a positive divisor.
pub open spec fn div_toward_zero(a: int, b: int) -> int {
    if a >= 0 {
        a / b
    } else {
        -((-a) / b)
    }
}

pub fn sat_add(a: i32, b: i32) -> (r: i32)
    ensures
        r == sat_add_i32(a as int, b as int),
{
    let s = a as i64 + b as i64;
    if s > i32::MAX as i64 {
        i32::MAX
    } else if s < i32::MIN as i64 {
        i32::MIN
    } else {
        s as i32
    }
}

pub fn sat_sub(a: i32, b: i32) -> (r: i32)
    ensures
        r == sat_add_i32(a as int, -(b as int)),
{
    let s = a as i64 - b as i64;
    if s > i32::MAX as i64 {
        i32::MAX
    } else if s < i32::MIN as i64 {
        i32::MIN
    } else {
        s as i32
    }
}

pub fn sat_abs(a: i32) -> (r: i32)
    ensures
        r == sat_abs_i32(a),
{
    if a == i32::MIN {
        i32::MAX
    } else if a < 0 {
        -a
    } else {
        a
    }
}

/// `v` held between `lo` and `hi` (`v.max(lo).min(hi)`).
pub fn clamp(v: i32, lo: i32, hi: i32) -> (r: i32)
    ensures
        r == clamp_int(v as int, lo as int, hi as int),
{
    let a = if v < lo {
        lo
    } else {
        v
    };
    if a > hi {
        hi
    } else {
        a
    }
}

/// A 32-bit value held in the 16-bit range.
pub fn clamp_i16(value: i32) -> (r: i16)
    ensures
        r == clamp_int(value as int, i16::MIN as int, i16::MAX as int),
{
    if value < i16::MIN as i32 {
        i16::MIN
    } else if value > i16::MAX as i32 {
        i16::MAX
    } else {
        value as i16
    }
}

/// Division of 64-bit values rounding toward zero, for a positive divisor.
pub fn div_trunc(a: i64, b: i64) -> (r: i64)
    requires
        b > 0,
        a > i64::MIN,
    ensures
        r == div_toward_zero(a as int, b as int),
{
    if a >= 0 {
        a / b
    } else {
        -((-a) / b)
    }
}

} // verus!
