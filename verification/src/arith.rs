//! Integer helpers shared by the placement and resize computations.
use vstd::prelude::*;

verus! {

/// Whether a mathematical integer can be held in an `i16`.
pub open spec fn fits_i16(v: int) -> bool {
    i16::MIN <= v <= i16::MAX
}

/// Division rounding toward zero, as `/` does on machine integers.
pub open spec fn div_trunc(a: int, b: int) -> int {
    if a >= 0 {
        a / b
    } else {
        -((-a) / b)
    }
}

/// `n / 2` rounded to the nearest integer, halves rounded away from zero.
pub open spec fn spec_round_halves(n: int) -> int {
    if n % 2 == 0 {
        n / 2
    } else if n > 0 {
        (n + 1) / 2
    } else {
        (n - 1) / 2
    }
}

/// Half of `n`, rounded to the nearest integer, halves rounded away from zero.
pub fn round_halves(n: i32) -> (r: i32)
    requires
        i32::MIN < n < i32::MAX,
    ensures
        r == spec_round_halves(n as int),
{
    if n % 2 == 0 {
        n / 2
    } else if n > 0 {
        (n + 1) / 2
    } else {
        (n - 1) / 2
    }
}

/// Two fifths of a resolution, rounded to the nearest integer.
pub open spec fn spec_two_fifths(resolution: int) -> int {
    (2 * resolution + 2) / 5
}

/// A fifth of a resolution, rounded to the nearest integer, negated.
pub open spec fn spec_minus_fifth(resolution: int) -> int {
    -((resolution + 2) / 5)
}

/// Two fifteenths of a resolution, rounded to the nearest integer, negated.
pub open spec fn spec_minus_two_fifteenths(resolution: int) -> int {
    -((2 * resolution + 7) / 15)
}

pub fn two_fifths(resolution: u16) -> (r: i16)
    ensures
        r == spec_two_fifths(resolution as int),
{
    let v: i32 = (2 * (resolution as i32) + 2) / 5;
    v as i16
}

pub fn minus_fifth(resolution: u16) -> (r: i16)
    ensures
        r == spec_minus_fifth(resolution as int),
{
    let v: i32 = ((resolution as i32) + 2) / 5;
    (-v) as i16
}

pub fn minus_two_fifteenths(resolution: u16) -> (r: i16)
    ensures
        r == spec_minus_two_fifteenths(resolution as int),
{
    let v: i32 = (2 * (resolution as i32) + 7) / 15;
    (-v) as i16
}

} // verus!
