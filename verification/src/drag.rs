//! The drag model: a pure function from speed, caliber and ballistic
//! coefficient to a decelerating scalar.
//!
//! In physical units the deceleration is
//! `0.5 * airDensity * speed^2 / (ballisticCoefficient * caliber^2)`
//! with the air density fixed at 1.225 kg/m^3, so the constant factor
//! `0.5 * 1.225` is the exact fraction `49 / 80`. In fixed point, with every
//! argument scaled by `SCALE`, the magnitude becomes
//! `49 * speed^2 * SCALE^2 / (80 * ballisticCoefficient * caliber^2)`,
//! rounded up so that any motion at all meets some drag.

use crate::fixed::{
    div_rounded_up, BC_LIMIT, CALIBER_LIMIT, SCALE, SPEED_LIMIT,
};
use vstd::arithmetic::div_mod::{
    lemma_basic_div, lemma_div_by_multiple, lemma_div_is_ordered, lemma_div_nonincreasing,
    lemma_div_pos_is_pos,
};
use vstd::prelude::*;

verus! {

/// Numerator of the drag quotient: `49 * speed^2 * SCALE^2`.
pub open spec fn drag_num(speed: int) -> int {
    49 * speed * speed * SCALE * SCALE
}

/// Denominator of the drag quotient: `80 * ballisticCoefficient * caliber^2`.
pub open spec fn drag_den(caliber: int, bc: int) -> int {
    80 * bc * caliber * caliber
}

/// Magnitude of the drag deceleration, in fixed-point units, rounded up.
pub open spec fn drag_mag(speed: int, caliber: int, bc: int) -> int {
    div_rounded_up(drag_num(speed), drag_den(caliber, bc))
}

/// The drag denominator is positive for positive caliber and coefficient.
pub proof fn lemma_drag_den_pos(caliber: int, bc: int)
    requires
        0 < caliber,
        0 < bc,
    ensures
        0 < drag_den(caliber, bc),
{
    assert(0 < 80 * bc * caliber * caliber) by (nonlinear_arith)
        requires
            0 < caliber,
            0 < bc,
    ;
}

/// The drag magnitude is never negative.
pub proof fn lemma_drag_mag_nonneg(speed: int, caliber: int, bc: int)
    requires
        0 <= speed,
        0 < caliber,
        0 < bc,
    ensures
        0 <= drag_mag(speed, caliber, bc),
{
    lemma_drag_den_pos(caliber, bc);
    let num = drag_num(speed);
    assert(0 <= num) by (nonlinear_arith)
        requires
            0 <= speed,
            num == 49 * speed * speed * 1_000_000 * 1_000_000,
    ;
    lemma_div_pos_is_pos(num + drag_den(caliber, bc) - 1, drag_den(caliber, bc));
}

/// The drag magnitude at speed zero is zero.
pub proof fn lemma_drag_mag_at_zero(caliber: int, bc: int)
    requires
        0 < caliber,
        0 < bc,
    ensures
        drag_mag(0, caliber, bc) == 0,
{
    lemma_drag_den_pos(caliber, bc);
    let den = drag_den(caliber, bc);
    assert(drag_num(0) == 0);
    lemma_basic_div(den - 1, den);
}

/// Drag deceleration for a projectile moving at `speed`, as the DragModel
/// defines it: a non-positive scalar, strictly negative exactly when the
/// projectile moves at all. The caller distributes it along the velocity
/// direction; it is the caller's burden (the parameter-acceptance boundary)
/// never to pass a non-positive caliber or ballistic coefficient.
pub fn drag_magnitude(speed: i64, caliber: i64, ballistic_coefficient: i64) -> (drag: i128)
    requires
        0 <= speed <= SPEED_LIMIT,
        0 < caliber <= CALIBER_LIMIT,
        0 < ballistic_coefficient <= BC_LIMIT,
    ensures
        drag == -drag_mag(speed as int, caliber as int, ballistic_coefficient as int),
        drag <= 0,
        drag == 0 <==> speed == 0,
{
    let s = speed as i128;
    let a: i128 = 49 * s;
    assert(a * s <= 600_250_000_000_000_000_000int) by (nonlinear_arith)
        requires
            0 <= s <= 3_500_000_000,
            a == 49 * s,
    ;
    let b: i128 = a * s;
    let num: i128 = b * (SCALE as i128) * (SCALE as i128);
    let d1: i128 = 80 * (ballistic_coefficient as i128);
    assert(0 < d1 * (caliber as i128) <= 800_000_000_000_000_000int) by (nonlinear_arith)
        requires
            0 < d1 <= 80_000_000_000,
            0 < caliber <= 10_000_000,
    ;
    let d2: i128 = d1 * (caliber as i128);
    assert(0 < d2 * (caliber as i128) <= 8_000_000_000_000_000_000_000_000int)
        by (nonlinear_arith)
        requires
            0 < d2 <= 800_000_000_000_000_000,
            0 < caliber <= 10_000_000,
    ;
    let den: i128 = d2 * (caliber as i128);
    assert(num >= 0 && (speed == 0 ==> num == 0) && (speed > 0 ==> num >= 49_000_000_000_000int))
        by (nonlinear_arith)
        requires
            0 <= s <= 3_500_000_000,
            s == speed,
            num == 49 * s * s * 1_000_000 * 1_000_000,
            SCALE == 1_000_000,
    ;
    let q: i128 = (((num + den - 1) as u128) / (den as u128)) as i128;
    proof {
        let numi = num as int;
        let deni = den as int;
        lemma_div_pos_is_pos(numi + deni - 1, deni);
        lemma_div_nonincreasing(numi + deni - 1, deni);
        if speed == 0 {
            lemma_basic_div(deni - 1, deni);
        } else {
            lemma_div_is_ordered(deni, numi + deni - 1, deni);
            lemma_div_by_multiple(1, deni);
        }
    }
    -q
}

} // verus!
