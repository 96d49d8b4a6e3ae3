//! Fixed-point angles and trigonometry.
//!
//! An angle is stored as a signed 16.16 fixed-point number of radians: the
//! real angle times `ANGLE_ONE`. The cosine and sine of such an angle come
//! from the `cordic` crate, working on the same bit representation, so no
//! floating point enters the simulation.

use vstd::arithmetic::div_mod::lemma_div_pos_is_pos;
use vstd::arithmetic::mul::lemma_mul_nonnegative;
use vstd::prelude::*;

verus! {

/// The fixed-point representation of 1.0: one radian is this many angle bits.
pub const ANGLE_ONE: i32 = 65536;

/// A quarter of pi (45 degrees) in angle bits; the widest reflection angle
/// a paddle can impart.
pub const MAX_REFLECT_ANGLE: i32 = 51472;

/// Pi in angle bits; kept an exact multiple of `MAX_REFLECT_ANGLE` so that
/// the reflection fan of the right paddle closes exactly around pi.
pub const PI_ANGLE: i32 = 205888;

/// Two pi in angle bits.
pub const TWO_PI_ANGLE: i32 = 411776;

/// The cosine, in 16.16 fixed point, of an angle in 16.16 fixed point.
pub uninterp spec fn cos_bits(a: int) -> int;

/// The sine, in 16.16 fixed point, of an angle in 16.16 fixed point.
pub uninterp spec fn sin_bits(a: int) -> int;

/// Relies on `cordic::cos` over a 16.16 fixed-point number (`fixed`'s
/// `I16F16`): the result is computed from the angle bits alone, by integer
/// rotations, so equal bits always give equal results.
#[verifier::external_body]
pub(crate) fn cos_fixed(a: i32) -> (r: i32)
    ensures
        r as int == cos_bits(a as int),
{
    cordic::cos(fixed::types::I16F16::from_bits(a)).to_bits()
}

/// Relies on `cordic::sin` over a 16.16 fixed-point number (`fixed`'s
/// `I16F16`): the result is computed from the angle bits alone, by integer
/// rotations, so equal bits always give equal results.
#[verifier::external_body]
pub(crate) fn sin_fixed(a: i32) -> (r: i32)
    ensures
        r as int == sin_bits(a as int),
{
    cordic::sin(fixed::types::I16F16::from_bits(a)).to_bits()
}

/// A fixed-point factor `c` scaled by `speed` and truncated toward zero,
/// saturated to `[-speed, speed]`. This is the per-tick displacement of the
/// ball along one axis, `c` being the cosine or sine of its heading.
pub open spec fn scaled_step(c: int, speed: int) -> int {
    if c >= 0 {
        let d = (c * speed) / (ANGLE_ONE as int);
        if d > speed {
            speed
        } else {
            d
        }
    } else {
        let d = ((-c) * speed) / (ANGLE_ONE as int);
        if d > speed {
            -speed
        } else {
            -d
        }
    }
}

/// The per-tick displacement never exceeds the speed in either direction.
pub proof fn lemma_scaled_step_bounded(c: int, speed: int)
    requires
        0 < speed,
    ensures
        -speed <= scaled_step(c, speed) <= speed,
{
    if c >= 0 {
        lemma_mul_nonnegative(c, speed);
        lemma_div_pos_is_pos(c * speed, ANGLE_ONE as int);
    } else {
        lemma_mul_nonnegative(-c, speed);
        lemma_div_pos_is_pos((-c) * speed, ANGLE_ONE as int);
    }
}

/// Computes `scaled_step` on machine integers.
pub(crate) fn scaled_step_exec(c: i32, speed: i16) -> (r: i16)
    requires
        0 < speed <= 1000,
    ensures
        r as int == scaled_step(c as int, speed as int),
        -speed <= r <= speed,
{
    if c >= 0 {
        proof {
            assert((c as u64) * (speed as u64) <= 0x7fff_ffff * 1000) by (nonlinear_arith)
                requires
                    c as u64 <= 0x7fff_ffff,
                    speed as u64 <= 1000,
            ;
        }
        let d: u64 = (c as u64) * (speed as u64) / (ANGLE_ONE as u64);
        if d > speed as u64 {
            speed
        } else {
            d as i16
        }
    } else {
        let m: u64 = (-(c as i64)) as u64;
        proof {
            assert(m * (speed as u64) <= 0x8000_0000 * 1000) by (nonlinear_arith)
                requires
                    m <= 0x8000_0000,
                    speed as u64 <= 1000,
            ;
        }
        let d: u64 = m * (speed as u64) / (ANGLE_ONE as u64);
        if d > speed as u64 {
            -speed
        } else {
            -(d as i16)
        }
    }
}

} // verus!
