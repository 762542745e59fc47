//! Small decisions shared by the rest of the tracer.
use vstd::prelude::*;
use vstd::arithmetic::div_mod::lemma_basic_div;
use vstd::arithmetic::power2::{lemma2_to64, lemma_pow2_strictly_increases, pow2};
use vstd::bits::lemma_u32_shr_is_div;
use crate::ppm::{pixel_line, ppm_pixel};
use crate::scalar::{Scalar, HIDDEN_BIT};
use crate::vec3::Vec3;

verus! {

/// Pattern of 1e-8, the size below which a component counts as zero.
pub const NEAR_ZERO_BITS: u32 = 0x322b_cc77;

/// Pattern of 0.999, the greatest encoded value that a channel shows.
pub const CHANNEL_MAX_BITS: u32 = 0x3f7f_be77;

/// `x` held to the range from `min` to `max`.
pub open spec fn clamp_spec(x: Scalar, min: Scalar, max: Scalar) -> Scalar {
    if x.less(min) {
        min
    } else if max.less(x) {
        max
    } else {
        x
    }
}

/// The lesser of two numbers; `y` when they do not compare.
pub open spec fn min_spec(x: Scalar, y: Scalar) -> Scalar {
    if x.less(y) {
        x
    } else {
        y
    }
}

/// Whether every component of `vec` is smaller in size than 1e-8.
pub open spec fn near_zero(vec: Vec3) -> bool {
    let margin = Scalar { bits: NEAR_ZERO_BITS };
    vec.x.absolute().less(margin) && vec.y.absolute().less(margin) && vec.z.absolute().less(
        margin,
    )
}

/// Clamps `x` to the range [`min`, `max`]. A pattern that is not a number
/// compares with nothing and so passes through unchanged.
pub fn clamp(x: Scalar, min: Scalar, max: Scalar) -> (r: Scalar)
    ensures
        r == clamp_spec(x, min, max),
        !x.nan() && min.at_most(max) ==> min.at_most(r) && r.at_most(max),
{
    if x.lt(min) {
        return min;
    }
    if x.gt(max) {
        return max;
    }
    x
}

/// The lesser of `x` and `y`; `y` where the two do not compare.
pub fn min(x: Scalar, y: Scalar) -> (r: Scalar)
    ensures
        r == min_spec(x, y),
        !x.nan() && !y.nan() ==> r.at_most(x) && r.at_most(y),
{
    if x.lt(y) {
        x
    } else {
        y
    }
}

/// Whether `vec` is too close to the zero vector to serve as a direction.
pub fn vec_near_zero(vec: Vec3) -> (r: bool)
    ensures
        r == near_zero(vec),
{
    let margin = Scalar::from_bits(NEAR_ZERO_BITS);
    vec.x.abs().lt(margin) && vec.y.abs().lt(margin) && vec.z.abs().lt(margin)
}

/// The channel value of an encoded intensity `v`: `⌊256 · c⌋` for `c`, which
/// is `v` clamped to the range from 0 to 0.999, and 0 where `v` is not a
/// number.
pub open spec fn channel_spec(value: Scalar) -> int {
    let c = clamp_spec(value, Scalar::zero(), Scalar { bits: CHANNEL_MAX_BITS });
    if c.nan() {
        0
    } else {
        c.floor_shifted(8)
    }
}

/// Turns an encoded intensity into a channel value from 0 to 255: clamps it
/// to the range from 0 to 0.999, multiplies by 256 and drops the fraction.
pub fn channel(value: Scalar) -> (r: u16)
    ensures
        r == channel_spec(value),
        r <= 255,
{
    let c = clamp(value, Scalar::zero(), Scalar::from_bits(CHANNEL_MAX_BITS));
    if c.is_nan() {
        return 0;
    }
    let magnitude: u32 = c.abs().to_bits();
    let exponent: u32 = magnitude / HIDDEN_BIT;
    let fraction: u32 = magnitude % HIDDEN_BIT;
    proof {
        lemma2_to64();
        assert(value == c || !value.nan());
        assert(magnitude <= CHANNEL_MAX_BITS);
        assert(exponent <= 126);
    }
    if exponent < 119 {
        proof {
            let shift = (142 - c.scale()) as nat;
            if shift > 24 {
                lemma_pow2_strictly_increases(24, shift);
            }
            lemma_basic_div(c.significand(), pow2(shift) as int);
        }
        return 0;
    }
    let significand: u32 = fraction + HIDDEN_BIT;
    let shift: u32 = 142 - exponent;
    proof {
        lemma_u32_shr_is_div(significand, shift);
        assert(significand < 0x100_0000 && 16 <= shift < 24 ==> (significand >> shift) < 256)
            by (bit_vector);
    }
    (significand >> shift) as u16
}

/// The line of a pixel in the image's text: the channel values of the
/// encoded red, green and blue in `encoded`, in decimal.
pub fn write_pixel_color(encoded: Vec3) -> (r: Vec<u8>)
    ensures
        r@ == pixel_line(
            channel_spec(encoded.x) as nat,
            channel_spec(encoded.y) as nat,
            channel_spec(encoded.z) as nat,
        ),
{
    ppm_pixel(channel(encoded.x), channel(encoded.y), channel(encoded.z))
}

/// One round of rejection sampling in the unit sphere: the candidate is kept
/// when its squared length is below 1, and the caller draws again otherwise.
pub fn random_vec_in_unit_sphere(candidate: Vec3, length_squared: Scalar) -> (r: Option<Vec3>)
    ensures
        r == if length_squared.less(Scalar::one()) {
            Some(candidate)
        } else {
            None::<Vec3>
        },
{
    if length_squared.lt(Scalar::one()) {
        Some(candidate)
    } else {
        None
    }
}

/// One round of rejection sampling in the unit disk: the candidate is
/// dropped when its squared length is above 1, and the caller draws again.
pub fn random_in_unit_disk(candidate: Vec3, length_squared: Scalar) -> (r: Option<Vec3>)
    ensures
        r == if Scalar::one().less(length_squared) {
            None::<Vec3>
        } else {
            Some(candidate)
        },
{
    if length_squared.gt(Scalar::one()) {
        None
    } else {
        Some(candidate)
    }
}

/// Turns a vector drawn in the unit sphere into the hemisphere around a
/// normal. `facing` is the dot product of the vector and the normal.
pub fn random_vec_in_hemisphere(vec_in_unit_sphere: Vec3, facing: Scalar) -> (r: Vec3)
    ensures
        r == if Scalar::zero().less(facing) {
            vec_in_unit_sphere
        } else {
            vec_in_unit_sphere.negated()
        },
{
    if facing.gt(Scalar::zero()) {
        vec_in_unit_sphere
    } else {
        vec_in_unit_sphere.neg()
    }
}

} // verus!
