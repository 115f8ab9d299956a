//! Fixed-point sine and cosine for angle arguments.
//!
//! The angle is first wrapped into `[0, TAU)` by an exact remainder on the
//! bit pattern, split into a quadrant, and folded into a kernel argument in
//! `[0, pi/2]`.  The smaller of the two results is evaluated by the
//! alternating Taylor series in nested-product form, entirely in unsigned
//! fixed-point arithmetic with a truncation at each of seven stages; the
//! larger one is then recovered as the square root of one minus the square
//! of the smaller.  Everything is integer arithmetic, so the computation is
//! deterministic bit for bit on every platform, and the dropped series tail
//! and the truncations keep each result within a few bits of the
//! mathematical value.  The square-root complement makes the unit circle a
//! theorem rather than a hope: the contracts state, and the proofs show,
//! that both results lie in `[-1, 1]` and that the fixed-point sum of their
//! squares sits within two bits below one.  The contracts also pin each
//! computed value down exactly through the spec-level mirror of the same
//! evaluation.

use crate::number::{fx_mul, fx_sqrt, lemma_fx_mul_neg_neg, Number};
use vstd::arithmetic::div_mod::{
    lemma_div_is_ordered, lemma_div_is_ordered_by_denominator, lemma_div_multiples_vanish,
};
use vstd::prelude::*;

verus! {

/// The full angle `2 * pi`, rounded to the 32-bit fixed-point precision.
pub const TAU_BITS: i128 = 26986075409;

/// `TAU_BITS` as an unsigned quantity, for the reduction arithmetic.
pub const TAU_U: u128 = 26986075409;

/// The quadrant boundary `pi / 2` in fixed-point bits, rounded down.
pub const QUARTER_U: u128 = 6746518852;

/// The octant boundary `pi / 4` in fixed-point bits, rounded down: below
/// it the sine is the smaller of the pair, above it the cosine is.
pub const OCTANT_U: u128 = 3373259426;

/// The quadrant boundary `pi` in fixed-point bits, rounded down.
pub const HALF_TURN_U: u128 = 13493037704;

/// The quadrant boundary `3 * pi / 2` in fixed-point bits, rounded down.
pub const THREE_QUARTER_U: u128 = 20239556556;

/// Largest argument ever handed to the series kernel: one bit above the
/// quadrant width, reached when folding the fourth quadrant.
pub const KERNEL_ARG_MAX_U: u128 = 6746518853;

/// Largest value of the scaled square of a kernel argument.
pub const KERNEL_SQ_MAX_U: u128 = 10597407034;

/// The scale factor as an unsigned quantity.
pub const FRAC_SCALE_U: u128 = 4294967296;

/// The value one as an unsigned quantity.
pub const ONE_U: u128 = 4294967296;

/// Product of the two largest stage operands, used to bound the stage
/// arithmetic.
pub const STAGE_PROD_MAX_U: u128 = 45515516633884435609;

/// The angle bit pattern wrapped into `[0, TAU_BITS)`.
pub open spec fn spec_reduce(x: int) -> int {
    let m = if x >= 0 { x } else { -x };
    let r = m % (TAU_U as int);
    if x >= 0 {
        r
    } else if r == 0 {
        0
    } else {
        (TAU_U as int) - r
    }
}

/// One nested-product stage of the series kernel: `1 - (v2 * a) / d` in
/// fixed point, truncating the scaled product and the division by the
/// whole-number divisor `d`.
pub open spec fn spec_stage(v2: int, a: int, d: int) -> int {
    (ONE_U as int) - ((v2 * a) / (FRAC_SCALE_U as int)) / d
}

/// The sine series kernel on `[0, pi/2]`: the odd Taylor series through the
/// fifteenth power in nested-product form,
/// `t * (1 - v2/6 * (1 - v2/20 * (... * (1 - v2/210))))` with
/// `v2 = t * t` scaled down, every product truncated to fixed point.
pub open spec fn spec_sin_kernel(t: int) -> int {
    let v2 = (t * t) / (FRAC_SCALE_U as int);
    let a1 = (ONE_U as int) - v2 / 210;
    let a2 = spec_stage(v2, a1, 156);
    let a3 = spec_stage(v2, a2, 110);
    let a4 = spec_stage(v2, a3, 72);
    let a5 = spec_stage(v2, a4, 42);
    let a6 = spec_stage(v2, a5, 20);
    let a7 = spec_stage(v2, a6, 6);
    (t * a7) / (FRAC_SCALE_U as int)
}

/// The cosine series kernel on `[0, pi/2]`: the even Taylor series through
/// the fourteenth power in nested-product form.  The final subtraction is
/// clamped at zero: just past `pi/2` the truncated series can overshoot one
/// by a few bits, and a cosine of exactly zero is returned instead.
pub open spec fn spec_cos_kernel(t: int) -> int {
    let v2 = (t * t) / (FRAC_SCALE_U as int);
    let b1 = (ONE_U as int) - v2 / 182;
    let b2 = spec_stage(v2, b1, 132);
    let b3 = spec_stage(v2, b2, 90);
    let b4 = spec_stage(v2, b3, 56);
    let b5 = spec_stage(v2, b4, 30);
    let b6 = spec_stage(v2, b5, 12);
    let m = ((v2 * b6) / (FRAC_SCALE_U as int)) / 2;
    if m >= ONE_U as int {
        0
    } else {
        (ONE_U as int) - m
    }
}

/// The square-root complement of a kernel result: the fixed-point square
/// root of one minus the scaled square, rounded down.  Deriving the larger
/// member of a sine-cosine pair this way pins the pair to the unit circle.
pub open spec fn spec_complement(x: int) -> int {
    fx_sqrt((ONE_U as int) - fx_mul(x, x))
}

/// The sine-cosine pair on `[0, pi/2]`: below the octant boundary the sine
/// comes from its series and the cosine is its complement; above it the
/// cosine comes from its series and the sine is its complement.
pub open spec fn spec_sin_cos_kernel(t: int) -> (int, int) {
    if t <= OCTANT_U as int {
        let s = spec_sin_kernel(t);
        (s, spec_complement(s))
    } else {
        let c = spec_cos_kernel(t);
        (spec_complement(c), c)
    }
}

/// The computed sine of an angle bit pattern: the wrapped angle folded into
/// its quadrant, the pair kernel applied to the folded argument, and the
/// sign of the quadrant restored.
pub open spec fn spec_sin(x: int) -> int {
    let r = spec_reduce(x);
    if r < QUARTER_U as int {
        spec_sin_cos_kernel(r).0
    } else if r < HALF_TURN_U as int {
        spec_sin_cos_kernel((HALF_TURN_U as int) - r).0
    } else if r < THREE_QUARTER_U as int {
        -spec_sin_cos_kernel(r - (HALF_TURN_U as int)).0
    } else {
        -spec_sin_cos_kernel((TAU_U as int) - r).0
    }
}

/// The computed cosine of an angle bit pattern.
pub open spec fn spec_cos(x: int) -> int {
    let r = spec_reduce(x);
    if r < QUARTER_U as int {
        spec_sin_cos_kernel(r).1
    } else if r < HALF_TURN_U as int {
        -spec_sin_cos_kernel((HALF_TURN_U as int) - r).1
    } else if r < THREE_QUARTER_U as int {
        -spec_sin_cos_kernel(r - (HALF_TURN_U as int)).1
    } else {
        spec_sin_cos_kernel((TAU_U as int) - r).1
    }
}

/// The full angle `2 * pi` as a fixed-point number.
pub fn tau() -> (r: Number)
    ensures
        r@ == TAU_BITS as int,
{
    Number::from_bits(TAU_BITS)
}

/// Wraps an angle bit pattern into `[0, TAU_BITS)`.
fn reduce(x: i128) -> (r: u128)
    requires
        x != i128::MIN,
    ensures
        r as int == spec_reduce(x as int),
        r < TAU_U,
{
    let neg = x < 0;
    let m: u128 = if neg {
        (-x) as u128
    } else {
        x as u128
    };
    let r0 = m % TAU_U;
    if neg && r0 != 0 {
        TAU_U - r0
    } else {
        r0
    }
}

/// One nested-product stage, in executable form.
fn trig_stage(v2: u128, a: u128, d: u128) -> (r: u128)
    requires
        v2 <= KERNEL_SQ_MAX_U,
        a <= ONE_U,
        6 <= d,
    ensures
        r as int == spec_stage(v2 as int, a as int, d as int),
        r <= ONE_U,
{
    proof {
        assert(v2 * a <= STAGE_PROD_MAX_U) by (nonlinear_arith)
            requires
                v2 <= KERNEL_SQ_MAX_U,
                a <= ONE_U,
        ;
        lemma_div_is_ordered(
            v2 as int * a as int,
            STAGE_PROD_MAX_U as int,
            FRAC_SCALE_U as int,
        );
        lemma_div_is_ordered_by_denominator(
            (v2 as int * a as int) / (FRAC_SCALE_U as int),
            6,
            d as int,
        );
        lemma_div_is_ordered(
            (v2 as int * a as int) / (FRAC_SCALE_U as int),
            KERNEL_SQ_MAX_U as int,
            6,
        );
    }
    let m = (v2 * a) / FRAC_SCALE_U;
    let q = m / d;
    ONE_U - q
}

/// The sine series kernel, in executable form.
fn sin_kernel(t: u128) -> (r: u128)
    requires
        t <= KERNEL_ARG_MAX_U,
    ensures
        r as int == spec_sin_kernel(t as int),
        r <= t,
{
    proof {
        assert(t * t <= KERNEL_ARG_MAX_U * KERNEL_ARG_MAX_U) by (nonlinear_arith)
            requires
                t <= KERNEL_ARG_MAX_U,
        ;
        lemma_div_is_ordered(
            t as int * t as int,
            (KERNEL_ARG_MAX_U as int) * (KERNEL_ARG_MAX_U as int),
            FRAC_SCALE_U as int,
        );
    }
    let v2 = (t * t) / FRAC_SCALE_U;
    proof {
        lemma_div_is_ordered(v2 as int, KERNEL_SQ_MAX_U as int, 210);
    }
    let a = ONE_U - v2 / 210;
    let a = trig_stage(v2, a, 156);
    let a = trig_stage(v2, a, 110);
    let a = trig_stage(v2, a, 72);
    let a = trig_stage(v2, a, 42);
    let a = trig_stage(v2, a, 20);
    let a = trig_stage(v2, a, 6);
    proof {
        assert(t * a <= t * ONE_U) by (nonlinear_arith)
            requires
                t <= KERNEL_ARG_MAX_U,
                a <= ONE_U,
        ;
        lemma_div_is_ordered(t as int * a as int, t as int * (ONE_U as int), FRAC_SCALE_U as int);
        assert(t as int * (ONE_U as int) == (FRAC_SCALE_U as int) * (t as int))
            by (nonlinear_arith);
        lemma_div_multiples_vanish(t as int, FRAC_SCALE_U as int);
    }
    (t * a) / FRAC_SCALE_U
}

/// The cosine series kernel, in executable form.
fn cos_kernel(t: u128) -> (r: u128)
    requires
        t <= KERNEL_ARG_MAX_U,
    ensures
        r as int == spec_cos_kernel(t as int),
        r <= ONE_U,
{
    proof {
        assert(t * t <= KERNEL_ARG_MAX_U * KERNEL_ARG_MAX_U) by (nonlinear_arith)
            requires
                t <= KERNEL_ARG_MAX_U,
        ;
        lemma_div_is_ordered(
            t as int * t as int,
            (KERNEL_ARG_MAX_U as int) * (KERNEL_ARG_MAX_U as int),
            FRAC_SCALE_U as int,
        );
    }
    let v2 = (t * t) / FRAC_SCALE_U;
    proof {
        lemma_div_is_ordered(v2 as int, KERNEL_SQ_MAX_U as int, 182);
    }
    let b = ONE_U - v2 / 182;
    let b = trig_stage(v2, b, 132);
    let b = trig_stage(v2, b, 90);
    let b = trig_stage(v2, b, 56);
    let b = trig_stage(v2, b, 30);
    let b = trig_stage(v2, b, 12);
    proof {
        assert(v2 * b <= STAGE_PROD_MAX_U) by (nonlinear_arith)
            requires
                v2 <= KERNEL_SQ_MAX_U,
                b <= ONE_U,
        ;
        lemma_div_is_ordered(
            v2 as int * b as int,
            STAGE_PROD_MAX_U as int,
            FRAC_SCALE_U as int,
        );
    }
    let m = ((v2 * b) / FRAC_SCALE_U) / 2;
    if m >= ONE_U {
        0
    } else {
        ONE_U - m
    }
}

/// The square-root complement of a series result: derives the larger
/// member of the pair from the smaller so that the two provably sit on the
/// unit circle.  The output is never above one, and the fixed-point sum of
/// the squares of input and output lands within two bits below one.
fn root_complement(x: u128) -> (r: u128)
    requires
        x <= ONE_U,
    ensures
        r as int == spec_complement(x as int),
        r <= ONE_U,
        (ONE_U as int) - 2 <= fx_mul(x as int, x as int) + fx_mul(r as int, r as int)
            <= ONE_U as int,
{
    proof {
        assert(x * x <= ONE_U * ONE_U) by (nonlinear_arith)
            requires
                x <= ONE_U,
        ;
        lemma_div_is_ordered(x as int * x as int, (ONE_U as int) * (ONE_U as int), FRAC_SCALE_U as int);
    }
    let u = (x * x) / FRAC_SCALE_U;
    let m = ONE_U - u;
    let root = Number::from_bits(m as i128).sqrt();
    proof {
        let mi = m as int;
        let f = FRAC_SCALE_U as int;
        let r = root@;
        assert(r <= f) by (nonlinear_arith)
            requires
                r >= 0,
                r * r <= mi * f,
                mi <= f,
                f == 4294967296,
        ;
        // upper bound: the scaled square of the root stays below the complement
        lemma_div_is_ordered(r * r, mi * f, f);
        assert(mi * f == f * mi) by (nonlinear_arith);
        lemma_div_multiples_vanish(mi, f);
        // lower bound: the root square misses the complement by under two bits
        assert(r * r >= (mi - 2) * f) by (nonlinear_arith)
            requires
                mi * f < (r + 1) * (r + 1),
                0 <= r <= f,
                0 <= mi,
                f == 4294967296,
        ;
        lemma_div_is_ordered((mi - 2) * f, r * r, f);
        assert((mi - 2) * f == f * (mi - 2)) by (nonlinear_arith);
        lemma_div_multiples_vanish(mi - 2, f);
    }
    root.to_bits() as u128
}

/// The sine-cosine pair kernel on `[0, pi/2]`, in executable form: the
/// series for the smaller member, the square-root complement for the
/// larger.
fn kernel_pair(t: u128) -> (r: (u128, u128))
    requires
        t <= KERNEL_ARG_MAX_U,
    ensures
        r.0 as int == spec_sin_cos_kernel(t as int).0,
        r.1 as int == spec_sin_cos_kernel(t as int).1,
        r.0 <= ONE_U,
        r.1 <= ONE_U,
        (ONE_U as int) - 2 <= fx_mul(r.0 as int, r.0 as int) + fx_mul(r.1 as int, r.1 as int)
            <= ONE_U as int,
{
    if t <= OCTANT_U {
        let s = sin_kernel(t);
        let c = root_complement(s);
        (s, c)
    } else {
        let c = cos_kernel(t);
        let s = root_complement(c);
        (s, c)
    }
}

/// The sine and cosine of a fixed-point angle, in that order.
///
/// The angle is wrapped into `[0, TAU)` exactly; the pair kernel then
/// approximates the mathematical functions to within a few bits of the
/// 32-bit fractional precision.  The results are pinned down exactly by the
/// spec-level mirror of the computation, both lie in `[-1, 1]`, and the
/// fixed-point sum of their squares sits within two bits below one — the
/// unit-circle bound that makes a rotor built from the pair a near-unit
/// motor.
pub fn sin_cos(x: Number) -> (r: (Number, Number))
    requires
        x@ != i128::MIN,
    ensures
        r.0@ == spec_sin(x@),
        r.1@ == spec_cos(x@),
        -(ONE_U as int) <= r.0@ <= ONE_U as int,
        -(ONE_U as int) <= r.1@ <= ONE_U as int,
        (ONE_U as int) - 2 <= fx_mul(r.0@, r.0@) + fx_mul(r.1@, r.1@) <= ONE_U as int,
{
    let rr = reduce(x.bits);
    if rr < QUARTER_U {
        let (s, c) = kernel_pair(rr);
        (Number::from_bits(s as i128), Number::from_bits(c as i128))
    } else if rr < HALF_TURN_U {
        let (s, c) = kernel_pair(HALF_TURN_U - rr);
        proof {
            lemma_fx_mul_neg_neg(c as int, c as int);
        }
        (Number::from_bits(s as i128), Number::from_bits(-(c as i128)))
    } else if rr < THREE_QUARTER_U {
        let (s, c) = kernel_pair(rr - HALF_TURN_U);
        proof {
            lemma_fx_mul_neg_neg(s as int, s as int);
            lemma_fx_mul_neg_neg(c as int, c as int);
        }
        (Number::from_bits(-(s as i128)), Number::from_bits(-(c as i128)))
    } else {
        let (s, c) = kernel_pair(TAU_U - rr);
        proof {
            lemma_fx_mul_neg_neg(s as int, s as int);
        }
        (Number::from_bits(-(s as i128)), Number::from_bits(c as i128))
    }
}

} // verus!
