//! Whole-number kinematics: how far a rate carries in a frame, and how a
//! coordinate is kept inside the range of its type.

use vstd::prelude::*;

verus! {

/// `v` brought into the range of `i32`: values beyond an end become that end.
pub open spec fn saturate_i32(v: int) -> i32 {
    if v < i32::MIN {
        i32::MIN
    } else if v > i32::MAX {
        i32::MAX
    } else {
        v as i32
    }
}

/// `v` brought into the range of `u32`.
pub open spec fn saturate_u32(v: int) -> u32 {
    if v < 0 {
        0
    } else if v > u32::MAX {
        u32::MAX
    } else {
        v as u32
    }
}

/// The magnitude of `v`; that of the smallest `i32` is the largest `i32`.
pub open spec fn saturating_abs(v: i32) -> i32 {
    if v >= 0 {
        v
    } else {
        saturate_i32(-v)
    }
}

/// `v` with its sign reversed; the smallest `i32` becomes the largest.
pub open spec fn saturating_neg(v: i32) -> i32 {
    saturate_i32(-v)
}

/// The distance covered in `delta_micros` microseconds at `rate` units per
/// second, rounded toward zero, so that opposite rates cover opposite
/// distances.
pub open spec fn displacement(rate: int, delta_micros: u64) -> int {
    if rate >= 0 {
        rate * delta_micros / 1_000_000
    } else {
        -((-rate) * delta_micros / 1_000_000)
    }
}

/// Where `coordinate` is after moving at `rate` for `delta_micros`.
pub open spec fn advanced(coordinate: i32, rate: int, delta_micros: u64) -> i32 {
    saturate_i32(coordinate + displacement(rate, delta_micros))
}

/// `value` scaled by `numerator / denominator`, rounded toward zero. A zero
/// denominator leaves the value as it is.
pub open spec fn scaled(value: int, numerator: u32, denominator: u32) -> int {
    if denominator == 0 {
        value
    } else if value >= 0 {
        value * numerator / (denominator as int)
    } else {
        -((-value) * numerator / (denominator as int))
    }
}

/// The offset that centres an extent within a span: half of what is left
/// over, rounded toward zero; negative when the extent is the larger.
pub open spec fn centered(span: u32, extent: u32) -> int {
    if span >= extent {
        (span - extent) / 2
    } else {
        -((extent - span) / 2)
    }
}

proof fn lemma_product_bound(a: int, b: int, a_max: int, b_max: int)
    requires
        0 <= a <= a_max,
        0 <= b <= b_max,
    ensures
        0 <= a * b <= a_max * b_max,
{
    assert(0 <= a * b <= a_max * b_max) by (nonlinear_arith)
        requires
            0 <= a <= a_max,
            0 <= b <= b_max,
    ;
}

pub fn saturate_to_i32(v: i128) -> (r: i32)
    ensures
        r == saturate_i32(v as int),
{
    if v < i32::MIN as i128 {
        i32::MIN
    } else if v > i32::MAX as i128 {
        i32::MAX
    } else {
        v as i32
    }
}

pub fn saturate_to_u32(v: i128) -> (r: u32)
    ensures
        r == saturate_u32(v as int),
{
    if v < 0 {
        0
    } else if v > u32::MAX as i128 {
        u32::MAX
    } else {
        v as u32
    }
}

pub fn abs_saturating(v: i32) -> (r: i32)
    ensures
        r == saturating_abs(v),
        r >= 0,
{
    if v >= 0 {
        v
    } else if v == i32::MIN {
        i32::MAX
    } else {
        -v
    }
}

pub fn neg_saturating(v: i32) -> (r: i32)
    ensures
        r == saturating_neg(v),
{
    if v == i32::MIN {
        i32::MAX
    } else {
        -v
    }
}

/// Computes [`displacement`].
pub fn displace(rate: i64, delta_micros: u64) -> (d: i128)
    ensures
        d == displacement(rate as int, delta_micros),
        -0x7fff_ffff_ffff_ffff_8000_0000_0000_0000 <= d <= 0x7fff_ffff_ffff_ffff_8000_0000_0000_0000,
{
    let magnitude: i128 = if rate >= 0 {
        rate as i128
    } else {
        -(rate as i128)
    };
    proof {
        lemma_product_bound(
            magnitude as int,
            delta_micros as int,
            0x8000_0000_0000_0000,
            0xffff_ffff_ffff_ffff,
        );
    }
    assert(0x8000_0000_0000_0000int * 0xffff_ffff_ffff_ffffint
        == 0x7fff_ffff_ffff_ffff_8000_0000_0000_0000int);
    let covered: i128 = magnitude * (delta_micros as i128) / 1_000_000;
    if rate >= 0 {
        covered
    } else {
        -covered
    }
}

/// Computes [`advanced`].
pub fn advance(coordinate: i32, rate: i64, delta_micros: u64) -> (r: i32)
    ensures
        r == advanced(coordinate, rate as int, delta_micros),
{
    let d = displace(rate, delta_micros);
    saturate_to_i32(coordinate as i128 + d)
}

/// Computes [`scaled`] for a value of up to 64 bits.
pub fn scale(value: i64, numerator: u32, denominator: u32) -> (r: i128)
    ensures
        r == scaled(value as int, numerator, denominator),
{
    if denominator == 0 {
        return value as i128;
    }
    let magnitude: i128 = if value >= 0 {
        value as i128
    } else {
        -(value as i128)
    };
    proof {
        lemma_product_bound(
            magnitude as int,
            numerator as int,
            0x8000_0000_0000_0000,
            0xffff_ffff,
        );
    }
    assert(0x8000_0000_0000_0000int * 0xffff_ffffint == 0x7fff_ffff_8000_0000_0000_0000int);
    let grown: i128 = magnitude * (numerator as i128) / (denominator as i128);
    if value >= 0 {
        grown
    } else {
        -grown
    }
}

/// Computes [`centered`]. The result always fits.
pub fn center_offset(span: u32, extent: u32) -> (r: i32)
    ensures
        r == centered(span, extent),
{
    if span >= extent {
        ((span - extent) / 2) as i32
    } else {
        -(((extent - span) / 2) as i32)
    }
}

/// Opposite rates cover opposite distances in the same time.
pub proof fn lemma_displacement_is_odd(rate: int, delta_micros: u64)
    ensures
        displacement(-rate, delta_micros) == -displacement(rate, delta_micros),
{
    if rate == 0 {
        assert(0 * delta_micros == 0);
    }
}

/// Nothing moves in no time, and nothing moves at rate zero.
pub proof fn lemma_displacement_zero(rate: int, delta_micros: u64)
    ensures
        displacement(rate, 0) == 0,
        displacement(0, delta_micros) == 0,
{
    assert(rate * 0 == 0);
    assert((-rate) * 0 == 0);
    assert(0 * delta_micros == 0);
}

} // verus!
