//! The algebraic laws of the motor product.
//!
//! The executable operations are specified exactly over the fixed-point
//! representation, where every pairwise product is truncated.  The laws of
//! the algebra are stated at two levels.  Laws that survive truncation
//! unchanged — the identity law, the point round trip, and translation
//! additivity up to one bit per translation component — are proved directly
//! over the truncated model [`spec_apply`].  The structural laws of the
//! geometric product itself — associativity, the reversion self-product,
//! rotor composition and norm scaling — are proved over the exact integer
//! model [`exact_apply`], in which products are not truncated; the rounding
//! bridge [`lemma_apply_rounding`] bounds the distance between the two
//! models by one bit per term.  On top of the bridge, quantitative laws
//! about the computed values themselves are proved: nested compositions
//! agree whichever way they are grouped to within a stated bit tolerance,
//! and normalization keeps the squared magnitude, the magnitude and the
//! components of an already normalized motor pinned within stated bit
//! windows.

use crate::motor::{
    spec_apply, spec_identity, spec_inverse, spec_magnitude, spec_magnitude_squared,
    spec_normalized, spec_translation, MotorV,
};
use crate::number::{
    fx_mul, fx_recip, fx_sqrt, is_sqrt_floor, lemma_fx_div_one, lemma_fx_mul_neg_half,
    lemma_fx_mul_neg_neg, lemma_fx_mul_one, lemma_fx_mul_zero, FRAC_SCALE, HALF_BITS, ONE_BITS,
};
use crate::vector3::Vec3V;
use vstd::arithmetic::div_mod::{
    lemma_div_is_ordered_by_denominator, lemma_fundamental_div_mod,
    lemma_fundamental_div_mod_converse, lemma_mod_bound,
};
use vstd::arithmetic::mul::{lemma_mul_basics, lemma_mul_is_associative, lemma_mul_unary_negation};
use vstd::prelude::*;

verus! {

/// The geometric product of two motors over exact integers: the same
/// bilinear form as [`spec_apply`], with nothing truncated.  The bit scale
/// drops out of every homogeneous law stated over this model.
pub open spec fn exact_apply(x: MotorV, y: MotorV) -> MotorV {
    let a = x.s;
    let b = x.e12;
    let c = x.e13;
    let d = x.e23;
    let e = x.e01;
    let f = x.e02;
    let g = x.e03;
    let h = x.e0123;
    let i = y.s;
    let j = y.e12;
    let k = y.e13;
    let l = y.e23;
    let m = y.e01;
    let n = y.e02;
    let o = y.e03;
    let p = y.e0123;
    MotorV {
        s: a * i - b * j - c * k - d * l,
        e12: a * j + b * i - c * l + d * k,
        e13: a * k + b * l + c * i - d * j,
        e23: a * l - b * k + c * j + d * i,
        e01: a * m + b * n + c * o - d * p + e * i - f * j - g * k - h * l,
        e02: a * n - b * m + c * p + d * o + e * j + f * i - g * l + h * k,
        e03: a * o - b * p - c * m - d * n + e * k + f * l + g * i - h * j,
        e0123: a * p + b * o - c * n + d * m + e * l - f * k + g * j + h * i,
    }
}

/// The exact squared norm of a motor: the sum of the squares of the scalar
/// and the three rotation bivector components.
pub open spec fn exact_norm2(t: MotorV) -> int {
    t.s * t.s + t.e12 * t.e12 + t.e13 * t.e13 + t.e23 * t.e23
}

/// The Study quantity of a motor.  Every motor that represents a rigid
/// motion has it equal to zero; it is zero for the constructors' outputs
/// and stays zero under exact composition.
pub open spec fn exact_study(t: MotorV) -> int {
    t.s * t.e0123 - t.e12 * t.e03 + t.e13 * t.e02 - t.e23 * t.e01
}

/// A motor with every component multiplied exactly by the same factor.
pub open spec fn exact_scale(t: MotorV, factor: int) -> MotorV {
    MotorV {
        s: t.s * factor,
        e12: t.e12 * factor,
        e13: t.e13 * factor,
        e23: t.e23 * factor,
        e01: t.e01 * factor,
        e02: t.e02 * factor,
        e03: t.e03 * factor,
        e0123: t.e0123 * factor,
    }
}

/// Identity law: composing with the identity motor on either side leaves
/// every component unchanged, exactly, even in the truncated fixed-point
/// model.
pub proof fn lemma_identity(t: MotorV)
    ensures
        spec_apply(t, spec_identity()) == t,
        spec_apply(spec_identity(), t) == t,
{
    lemma_fx_mul_zero(-t.s);
    lemma_fx_mul_zero(-t.e12);
    lemma_fx_mul_zero(-t.e13);
    lemma_fx_mul_zero(-t.e23);
    lemma_fx_mul_zero(-t.e01);
    lemma_fx_mul_zero(-t.e02);
    lemma_fx_mul_zero(-t.e03);
    lemma_fx_mul_zero(-t.e0123);
    lemma_fx_mul_zero(t.s);
    lemma_fx_mul_zero(t.e12);
    lemma_fx_mul_zero(t.e13);
    lemma_fx_mul_zero(t.e23);
    lemma_fx_mul_zero(t.e01);
    lemma_fx_mul_zero(t.e02);
    lemma_fx_mul_zero(t.e03);
    lemma_fx_mul_zero(t.e0123);
    lemma_fx_mul_one(t.s);
    lemma_fx_mul_one(t.e12);
    lemma_fx_mul_one(t.e13);
    lemma_fx_mul_one(t.e23);
    lemma_fx_mul_one(t.e01);
    lemma_fx_mul_one(t.e02);
    lemma_fx_mul_one(t.e03);
    lemma_fx_mul_one(t.e0123);
    lemma_fx_mul_zero(ONE_BITS as int);
    lemma_fx_mul_zero(0);
}

/// Reversion self-product: over the exact model, a motor times its
/// reversion has the squared norm as its scalar part, zero in every
/// bivector component, and twice the Study quantity in the pseudoscalar.
/// For a motor that represents a rigid motion the Study quantity is zero,
/// so the product is the squared norm alone; at unit norm the scalar part
/// is the square of the unit, which is one in represented value.
pub proof fn lemma_inverse_self_product(t: MotorV)
    ensures
        exact_apply(t, spec_inverse(t)) == (MotorV {
            s: exact_norm2(t),
            e12: 0,
            e13: 0,
            e23: 0,
            e01: 0,
            e02: 0,
            e03: 0,
            e0123: 2 * exact_study(t),
        }),
{
    let a = t.s;
    let b = t.e12;
    let c = t.e13;
    let d = t.e23;
    let e = t.e01;
    let f = t.e02;
    let g = t.e03;
    let h = t.e0123;
    assert(a * a - b * (-b) - c * (-c) - d * (-d) == a * a + b * b + c * c + d * d)
        by (nonlinear_arith);
    assert(a * (-b) + b * a - c * (-d) + d * (-c) == 0) by (nonlinear_arith);
    assert(a * (-c) + b * (-d) + c * a - d * (-b) == 0) by (nonlinear_arith);
    assert(a * (-d) - b * (-c) + c * (-b) + d * a == 0) by (nonlinear_arith);
    assert(a * (-e) + b * (-f) + c * (-g) - d * h + e * a - f * (-b) - g * (-c) - h * (-d)
        == 0) by (nonlinear_arith);
    assert(a * (-f) - b * (-e) + c * h + d * (-g) + e * (-b) + f * a - g * (-d) + h * (-c)
        == 0) by (nonlinear_arith);
    assert(a * (-g) - b * h - c * (-e) - d * (-f) + e * (-c) + f * (-d) + g * a - h * (-b)
        == 0) by (nonlinear_arith);
    assert(a * h + b * (-g) - c * (-f) + d * (-e) + e * (-d) - f * (-c) + g * (-b) + h * a
        == 2 * (a * h - b * g + c * f - d * e)) by (nonlinear_arith);
}

/// Rotor composition: over the exact model, the product of two rotors in
/// the same plane is the rotor whose scalar and bivector components are the
/// angle-addition combinations of the factors'.  With the factors'
/// components standing for the cosine and sine of the half angles, this is
/// rotation additivity; the executable constructors realise the cosine and
/// sine through the truncated series kernel, so the computed composition
/// matches the computed rotor of the summed angle within the kernel and
/// rounding tolerance.
pub proof fn lemma_rotor_xy_compose(a: int, b: int, i: int, j: int)
    ensures
        exact_apply(
            MotorV { s: a, e12: b, e13: 0, e23: 0, e01: 0, e02: 0, e03: 0, e0123: 0 },
            MotorV { s: i, e12: j, e13: 0, e23: 0, e01: 0, e02: 0, e03: 0, e0123: 0 },
        ) == (MotorV {
            s: a * i - b * j,
            e12: a * j + b * i,
            e13: 0,
            e23: 0,
            e01: 0,
            e02: 0,
            e03: 0,
            e0123: 0,
        }),
{
    assert(a * 0 == 0 && b * 0 == 0 && i * 0 == 0 && j * 0 == 0 && 0 * i == 0 && 0 * j == 0
        && 0 * a == 0 && 0 * b == 0 && 0 * 0 == 0) by (nonlinear_arith);
}

/// Rotor composition in the truncated model: composing two xy-plane
/// rotors keeps every other component exactly zero, and the scalar and
/// bivector parts are exactly the truncated angle-addition combinations of
/// the factors'.  Only the link between those combinations and the sine
/// and cosine of the summed angle lives outside the integer model, in the
/// accuracy of the series kernel.
pub proof fn lemma_rotor_xy_compose_computed(a: int, b: int, i: int, j: int)
    ensures
        ({
            let r = spec_apply(
                MotorV { s: a, e12: b, e13: 0, e23: 0, e01: 0, e02: 0, e03: 0, e0123: 0 },
                MotorV { s: i, e12: j, e13: 0, e23: 0, e01: 0, e02: 0, e03: 0, e0123: 0 },
            );
            &&& r.s == fx_mul(-b, j) + fx_mul(a, i)
            &&& r.e12 == fx_mul(a, j) + fx_mul(b, i)
            &&& r.e13 == 0
            &&& r.e23 == 0
            &&& r.e01 == 0
            &&& r.e02 == 0
            &&& r.e03 == 0
            &&& r.e0123 == 0
        }),
{
    lemma_fx_mul_zero(0);
    lemma_fx_mul_zero(a);
    lemma_fx_mul_zero(b);
    lemma_fx_mul_zero(-b);
    lemma_fx_mul_zero(i);
    lemma_fx_mul_zero(j);
}

/// Rotor composition in the xz plane, the same law as in the xy plane.
pub proof fn lemma_rotor_xz_compose(a: int, c: int, i: int, k: int)
    ensures
        exact_apply(
            MotorV { s: a, e12: 0, e13: c, e23: 0, e01: 0, e02: 0, e03: 0, e0123: 0 },
            MotorV { s: i, e12: 0, e13: k, e23: 0, e01: 0, e02: 0, e03: 0, e0123: 0 },
        ) == (MotorV {
            s: a * i - c * k,
            e12: 0,
            e13: a * k + c * i,
            e23: 0,
            e01: 0,
            e02: 0,
            e03: 0,
            e0123: 0,
        }),
{
    assert(a * 0 == 0 && c * 0 == 0 && i * 0 == 0 && k * 0 == 0 && 0 * i == 0 && 0 * k == 0
        && 0 * a == 0 && 0 * c == 0 && 0 * 0 == 0) by (nonlinear_arith);
}

/// Rotor composition in the yz plane, the same law as in the xy plane.
pub proof fn lemma_rotor_yz_compose(a: int, d: int, i: int, l: int)
    ensures
        exact_apply(
            MotorV { s: a, e12: 0, e13: 0, e23: d, e01: 0, e02: 0, e03: 0, e0123: 0 },
            MotorV { s: i, e12: 0, e13: 0, e23: l, e01: 0, e02: 0, e03: 0, e0123: 0 },
        ) == (MotorV {
            s: a * i - d * l,
            e12: 0,
            e13: 0,
            e23: a * l + d * i,
            e01: 0,
            e02: 0,
            e03: 0,
            e0123: 0,
        }),
{
    assert(a * 0 == 0 && d * 0 == 0 && i * 0 == 0 && l * 0 == 0 && 0 * i == 0 && 0 * l == 0
        && 0 * a == 0 && 0 * d == 0 && 0 * 0 == 0) by (nonlinear_arith);
}

/// Norm of a scaled motor: over the exact model, scaling every component
/// by a factor scales the squared norm by the square of the factor.  This
/// is the algebraic content of normalization: dividing by the magnitude
/// brings the squared norm to one, and renormalizing an already unit-norm
/// motor changes nothing.
pub proof fn lemma_scale_norm(t: MotorV, factor: int)
    ensures
        exact_norm2(exact_scale(t, factor)) == factor * factor * exact_norm2(t),
{
    let a = t.s;
    let b = t.e12;
    let c = t.e13;
    let d = t.e23;
    assert((a * factor) * (a * factor) == factor * factor * (a * a)) by (nonlinear_arith);
    assert((b * factor) * (b * factor) == factor * factor * (b * b)) by (nonlinear_arith);
    assert((c * factor) * (c * factor) == factor * factor * (c * c)) by (nonlinear_arith);
    assert((d * factor) * (d * factor) == factor * factor * (d * d)) by (nonlinear_arith);
    assert(factor * factor * (a * a) + factor * factor * (b * b) + factor * factor * (c * c)
        + factor * factor * (d * d) == factor * factor * (a * a + b * b + c * c + d * d))
        by (nonlinear_arith);
}

/// Point round trip: embedding a vector as a homogeneous point and
/// projecting it back returns the vector unchanged, exactly — the weight is
/// one and division by one is exact.
pub proof fn lemma_point_roundtrip(v: Vec3V)
    ensures
        crate::motor::spec_vec3_from_point(crate::motor::spec_point_from_vec3(v)) == v,
{
    lemma_fx_div_one(v.x);
    lemma_fx_div_one(v.y);
    lemma_fx_div_one(v.z);
}

/// Translation additivity: in the truncated model, composing the
/// translations by `u` and by `v` agrees with the translation by `u + v`
/// exactly in every component except the three translation bivectors, and
/// in those to within one bit: halving each offset separately can lose one
/// half bit twice where halving the sum loses it once.
pub proof fn lemma_translation_additive(u: Vec3V, v: Vec3V)
    ensures
        ({
            let lhs = spec_apply(spec_translation(u), spec_translation(v));
            let rhs = spec_translation(Vec3V { x: u.x + v.x, y: u.y + v.y, z: u.z + v.z });
            &&& lhs.s == rhs.s
            &&& lhs.e12 == rhs.e12
            &&& lhs.e13 == rhs.e13
            &&& lhs.e23 == rhs.e23
            &&& lhs.e0123 == rhs.e0123
            &&& rhs.e01 - 1 <= lhs.e01 <= rhs.e01
            &&& rhs.e02 - 1 <= lhs.e02 <= rhs.e02
            &&& rhs.e03 - 1 <= lhs.e03 <= rhs.e03
        }),
{
    lemma_fx_mul_zero(0);
    lemma_fx_mul_zero(ONE_BITS as int);
    lemma_fx_mul_zero(-(fx_mul(u.x, -(HALF_BITS as int))));
    lemma_fx_mul_zero(-(fx_mul(u.y, -(HALF_BITS as int))));
    lemma_fx_mul_zero(-(fx_mul(u.z, -(HALF_BITS as int))));
    lemma_fx_mul_zero(fx_mul(u.x, -(HALF_BITS as int)));
    lemma_fx_mul_zero(fx_mul(u.y, -(HALF_BITS as int)));
    lemma_fx_mul_zero(fx_mul(u.z, -(HALF_BITS as int)));
    lemma_fx_mul_zero(fx_mul(v.x, -(HALF_BITS as int)));
    lemma_fx_mul_zero(fx_mul(v.y, -(HALF_BITS as int)));
    lemma_fx_mul_zero(fx_mul(v.z, -(HALF_BITS as int)));
    lemma_fx_mul_one(ONE_BITS as int);
    lemma_fx_mul_one(fx_mul(v.x, -(HALF_BITS as int)));
    lemma_fx_mul_one(fx_mul(v.y, -(HALF_BITS as int)));
    lemma_fx_mul_one(fx_mul(v.z, -(HALF_BITS as int)));
    lemma_fx_mul_one(fx_mul(u.x, -(HALF_BITS as int)));
    lemma_fx_mul_one(fx_mul(u.y, -(HALF_BITS as int)));
    lemma_fx_mul_one(fx_mul(u.z, -(HALF_BITS as int)));
    lemma_fx_mul_neg_half(u.x);
    lemma_fx_mul_neg_half(u.y);
    lemma_fx_mul_neg_half(u.z);
    lemma_fx_mul_neg_half(v.x);
    lemma_fx_mul_neg_half(v.y);
    lemma_fx_mul_neg_half(v.z);
    lemma_fx_mul_neg_half(u.x + v.x);
    lemma_fx_mul_neg_half(u.y + v.y);
    lemma_fx_mul_neg_half(u.z + v.z);
    lemma_half_sum_floor(-u.x, -v.x);
    lemma_half_sum_floor(-u.y, -v.y);
    lemma_half_sum_floor(-u.z, -v.z);
}

/// Floors of halves: halving two values separately loses at most one bit
/// against halving their sum.
proof fn lemma_half_sum_floor(p: int, q: int)
    ensures
        (p + q) / 2 - 1 <= p / 2 + q / 2 <= (p + q) / 2,
{
    lemma_fundamental_div_mod(p, 2);
    lemma_fundamental_div_mod(q, 2);
    lemma_fundamental_div_mod(p + q, 2);
    lemma_mod_bound(p, 2);
    lemma_mod_bound(q, 2);
    lemma_mod_bound(p + q, 2);
}

#[verifier::rlimit(50)]
proof fn assoc_s(a: int, b: int, c: int, d: int, e: int, f: int, g: int, h: int, i: int, j: int, k: int, l: int, m: int, n: int, o: int, p: int, q: int, rr: int, ss: int, tt: int, uu: int, vv: int, ww: int, xx: int)
    ensures
        (a * i - b * j - c * k - d * l) * q - (a * j + b * i - c * l + d * k) * rr - (a * k + b * l + c * i - d * j) * ss - (a * l - b * k + c * j + d * i) * tt == a * (i * q - j * rr - k * ss - l * tt) - b * (i * rr + j * q - k * tt + l * ss) - c * (i * ss + j * tt + k * q - l * rr) - d * (i * tt - j * ss + k * rr + l * q),
{
    assert((a * i - b * j - c * k - d * l) * q == (a * i) * q - (b * j) * q - (c * k) * q - (d * l) * q) by (nonlinear_arith);
    assert(a * (i * q - j * rr - k * ss - l * tt) == a * (i * q) - a * (j * rr) - a * (k * ss) - a * (l * tt)) by (nonlinear_arith);
    assert((a * j + b * i - c * l + d * k) * rr == (a * j) * rr + (b * i) * rr - (c * l) * rr + (d * k) * rr) by (nonlinear_arith);
    assert(b * (i * rr + j * q - k * tt + l * ss) == b * (i * rr) + b * (j * q) - b * (k * tt) + b * (l * ss)) by (nonlinear_arith);
    assert((a * k + b * l + c * i - d * j) * ss == (a * k) * ss + (b * l) * ss + (c * i) * ss - (d * j) * ss) by (nonlinear_arith);
    assert(c * (i * ss + j * tt + k * q - l * rr) == c * (i * ss) + c * (j * tt) + c * (k * q) - c * (l * rr)) by (nonlinear_arith);
    assert((a * l - b * k + c * j + d * i) * tt == (a * l) * tt - (b * k) * tt + (c * j) * tt + (d * i) * tt) by (nonlinear_arith);
    assert(d * (i * tt - j * ss + k * rr + l * q) == d * (i * tt) - d * (j * ss) + d * (k * rr) + d * (l * q)) by (nonlinear_arith);
    lemma_mul_is_associative(a, i, q);
    lemma_mul_is_associative(a, j, rr);
    lemma_mul_is_associative(a, k, ss);
    lemma_mul_is_associative(a, l, tt);
    lemma_mul_is_associative(b, i, rr);
    lemma_mul_is_associative(b, j, q);
    lemma_mul_is_associative(b, k, tt);
    lemma_mul_is_associative(b, l, ss);
    lemma_mul_is_associative(c, i, ss);
    lemma_mul_is_associative(c, j, tt);
    lemma_mul_is_associative(c, k, q);
    lemma_mul_is_associative(c, l, rr);
    lemma_mul_is_associative(d, i, tt);
    lemma_mul_is_associative(d, j, ss);
    lemma_mul_is_associative(d, k, rr);
    lemma_mul_is_associative(d, l, q);
}

#[verifier::rlimit(50)]
proof fn assoc_e12(a: int, b: int, c: int, d: int, e: int, f: int, g: int, h: int, i: int, j: int, k: int, l: int, m: int, n: int, o: int, p: int, q: int, rr: int, ss: int, tt: int, uu: int, vv: int, ww: int, xx: int)
    ensures
        (a * i - b * j - c * k - d * l) * rr + (a * j + b * i - c * l + d * k) * q - (a * k + b * l + c * i - d * j) * tt + (a * l - b * k + c * j + d * i) * ss == a * (i * rr + j * q - k * tt + l * ss) + b * (i * q - j * rr - k * ss - l * tt) - c * (i * tt - j * ss + k * rr + l * q) + d * (i * ss + j * tt + k * q - l * rr),
{
    assert((a * i - b * j - c * k - d * l) * rr == (a * i) * rr - (b * j) * rr - (c * k) * rr - (d * l) * rr) by (nonlinear_arith);
    assert(a * (i * rr + j * q - k * tt + l * ss) == a * (i * rr) + a * (j * q) - a * (k * tt) + a * (l * ss)) by (nonlinear_arith);
    assert((a * j + b * i - c * l + d * k) * q == (a * j) * q + (b * i) * q - (c * l) * q + (d * k) * q) by (nonlinear_arith);
    assert(b * (i * q - j * rr - k * ss - l * tt) == b * (i * q) - b * (j * rr) - b * (k * ss) - b * (l * tt)) by (nonlinear_arith);
    assert((a * k + b * l + c * i - d * j) * tt == (a * k) * tt + (b * l) * tt + (c * i) * tt - (d * j) * tt) by (nonlinear_arith);
    assert(c * (i * tt - j * ss + k * rr + l * q) == c * (i * tt) - c * (j * ss) + c * (k * rr) + c * (l * q)) by (nonlinear_arith);
    assert((a * l - b * k + c * j + d * i) * ss == (a * l) * ss - (b * k) * ss + (c * j) * ss + (d * i) * ss) by (nonlinear_arith);
    assert(d * (i * ss + j * tt + k * q - l * rr) == d * (i * ss) + d * (j * tt) + d * (k * q) - d * (l * rr)) by (nonlinear_arith);
    lemma_mul_is_associative(a, i, rr);
    lemma_mul_is_associative(a, j, q);
    lemma_mul_is_associative(a, k, tt);
    lemma_mul_is_associative(a, l, ss);
    lemma_mul_is_associative(b, i, q);
    lemma_mul_is_associative(b, j, rr);
    lemma_mul_is_associative(b, k, ss);
    lemma_mul_is_associative(b, l, tt);
    lemma_mul_is_associative(c, i, tt);
    lemma_mul_is_associative(c, j, ss);
    lemma_mul_is_associative(c, k, rr);
    lemma_mul_is_associative(c, l, q);
    lemma_mul_is_associative(d, i, ss);
    lemma_mul_is_associative(d, j, tt);
    lemma_mul_is_associative(d, k, q);
    lemma_mul_is_associative(d, l, rr);
}

#[verifier::rlimit(50)]
proof fn assoc_e13(a: int, b: int, c: int, d: int, e: int, f: int, g: int, h: int, i: int, j: int, k: int, l: int, m: int, n: int, o: int, p: int, q: int, rr: int, ss: int, tt: int, uu: int, vv: int, ww: int, xx: int)
    ensures
        (a * i - b * j - c * k - d * l) * ss + (a * j + b * i - c * l + d * k) * tt + (a * k + b * l + c * i - d * j) * q - (a * l - b * k + c * j + d * i) * rr == a * (i * ss + j * tt + k * q - l * rr) + b * (i * tt - j * ss + k * rr + l * q) + c * (i * q - j * rr - k * ss - l * tt) - d * (i * rr + j * q - k * tt + l * ss),
{
    assert((a * i - b * j - c * k - d * l) * ss == (a * i) * ss - (b * j) * ss - (c * k) * ss - (d * l) * ss) by (nonlinear_arith);
    assert(a * (i * ss + j * tt + k * q - l * rr) == a * (i * ss) + a * (j * tt) + a * (k * q) - a * (l * rr)) by (nonlinear_arith);
    assert((a * j + b * i - c * l + d * k) * tt == (a * j) * tt + (b * i) * tt - (c * l) * tt + (d * k) * tt) by (nonlinear_arith);
    assert(b * (i * tt - j * ss + k * rr + l * q) == b * (i * tt) - b * (j * ss) + b * (k * rr) + b * (l * q)) by (nonlinear_arith);
    assert((a * k + b * l + c * i - d * j) * q == (a * k) * q + (b * l) * q + (c * i) * q - (d * j) * q) by (nonlinear_arith);
    assert(c * (i * q - j * rr - k * ss - l * tt) == c * (i * q) - c * (j * rr) - c * (k * ss) - c * (l * tt)) by (nonlinear_arith);
    assert((a * l - b * k + c * j + d * i) * rr == (a * l) * rr - (b * k) * rr + (c * j) * rr + (d * i) * rr) by (nonlinear_arith);
    assert(d * (i * rr + j * q - k * tt + l * ss) == d * (i * rr) + d * (j * q) - d * (k * tt) + d * (l * ss)) by (nonlinear_arith);
    lemma_mul_is_associative(a, i, ss);
    lemma_mul_is_associative(a, j, tt);
    lemma_mul_is_associative(a, k, q);
    lemma_mul_is_associative(a, l, rr);
    lemma_mul_is_associative(b, i, tt);
    lemma_mul_is_associative(b, j, ss);
    lemma_mul_is_associative(b, k, rr);
    lemma_mul_is_associative(b, l, q);
    lemma_mul_is_associative(c, i, q);
    lemma_mul_is_associative(c, j, rr);
    lemma_mul_is_associative(c, k, ss);
    lemma_mul_is_associative(c, l, tt);
    lemma_mul_is_associative(d, i, rr);
    lemma_mul_is_associative(d, j, q);
    lemma_mul_is_associative(d, k, tt);
    lemma_mul_is_associative(d, l, ss);
}

#[verifier::rlimit(50)]
proof fn assoc_e23(a: int, b: int, c: int, d: int, e: int, f: int, g: int, h: int, i: int, j: int, k: int, l: int, m: int, n: int, o: int, p: int, q: int, rr: int, ss: int, tt: int, uu: int, vv: int, ww: int, xx: int)
    ensures
        (a * i - b * j - c * k - d * l) * tt - (a * j + b * i - c * l + d * k) * ss + (a * k + b * l + c * i - d * j) * rr + (a * l - b * k + c * j + d * i) * q == a * (i * tt - j * ss + k * rr + l * q) - b * (i * ss + j * tt + k * q - l * rr) + c * (i * rr + j * q - k * tt + l * ss) + d * (i * q - j * rr - k * ss - l * tt),
{
    assert((a * i - b * j - c * k - d * l) * tt == (a * i) * tt - (b * j) * tt - (c * k) * tt - (d * l) * tt) by (nonlinear_arith);
    assert(a * (i * tt - j * ss + k * rr + l * q) == a * (i * tt) - a * (j * ss) + a * (k * rr) + a * (l * q)) by (nonlinear_arith);
    assert((a * j + b * i - c * l + d * k) * ss == (a * j) * ss + (b * i) * ss - (c * l) * ss + (d * k) * ss) by (nonlinear_arith);
    assert(b * (i * ss + j * tt + k * q - l * rr) == b * (i * ss) + b * (j * tt) + b * (k * q) - b * (l * rr)) by (nonlinear_arith);
    assert((a * k + b * l + c * i - d * j) * rr == (a * k) * rr + (b * l) * rr + (c * i) * rr - (d * j) * rr) by (nonlinear_arith);
    assert(c * (i * rr + j * q - k * tt + l * ss) == c * (i * rr) + c * (j * q) - c * (k * tt) + c * (l * ss)) by (nonlinear_arith);
    assert((a * l - b * k + c * j + d * i) * q == (a * l) * q - (b * k) * q + (c * j) * q + (d * i) * q) by (nonlinear_arith);
    assert(d * (i * q - j * rr - k * ss - l * tt) == d * (i * q) - d * (j * rr) - d * (k * ss) - d * (l * tt)) by (nonlinear_arith);
    lemma_mul_is_associative(a, i, tt);
    lemma_mul_is_associative(a, j, ss);
    lemma_mul_is_associative(a, k, rr);
    lemma_mul_is_associative(a, l, q);
    lemma_mul_is_associative(b, i, ss);
    lemma_mul_is_associative(b, j, tt);
    lemma_mul_is_associative(b, k, q);
    lemma_mul_is_associative(b, l, rr);
    lemma_mul_is_associative(c, i, rr);
    lemma_mul_is_associative(c, j, q);
    lemma_mul_is_associative(c, k, tt);
    lemma_mul_is_associative(c, l, ss);
    lemma_mul_is_associative(d, i, q);
    lemma_mul_is_associative(d, j, rr);
    lemma_mul_is_associative(d, k, ss);
    lemma_mul_is_associative(d, l, tt);
}

#[verifier::rlimit(50)]
proof fn assoc_e01(a: int, b: int, c: int, d: int, e: int, f: int, g: int, h: int, i: int, j: int, k: int, l: int, m: int, n: int, o: int, p: int, q: int, rr: int, ss: int, tt: int, uu: int, vv: int, ww: int, xx: int)
    ensures
        (a * i - b * j - c * k - d * l) * uu + (a * j + b * i - c * l + d * k) * vv + (a * k + b * l + c * i - d * j) * ww - (a * l - b * k + c * j + d * i) * xx + (a * m + b * n + c * o - d * p + e * i - f * j - g * k - h * l) * q - (a * n - b * m + c * p + d * o + e * j + f * i - g * l + h * k) * rr - (a * o - b * p - c * m - d * n + e * k + f * l + g * i - h * j) * ss - (a * p + b * o - c * n + d * m + e * l - f * k + g * j + h * i) * tt == a * (i * uu + j * vv + k * ww - l * xx + m * q - n * rr - o * ss - p * tt) + b * (i * vv - j * uu + k * xx + l * ww + m * rr + n * q - o * tt + p * ss) + c * (i * ww - j * xx - k * uu - l * vv + m * ss + n * tt + o * q - p * rr) - d * (i * xx + j * ww - k * vv + l * uu + m * tt - n * ss + o * rr + p * q) + e * (i * q - j * rr - k * ss - l * tt) - f * (i * rr + j * q - k * tt + l * ss) - g * (i * ss + j * tt + k * q - l * rr) - h * (i * tt - j * ss + k * rr + l * q),
{
    assert((a * i - b * j - c * k - d * l) * uu == (a * i) * uu - (b * j) * uu - (c * k) * uu - (d * l) * uu) by (nonlinear_arith);
    assert(a * (i * uu + j * vv + k * ww - l * xx + m * q - n * rr - o * ss - p * tt) == a * (i * uu) + a * (j * vv) + a * (k * ww) - a * (l * xx) + a * (m * q) - a * (n * rr) - a * (o * ss) - a * (p * tt)) by (nonlinear_arith);
    assert((a * j + b * i - c * l + d * k) * vv == (a * j) * vv + (b * i) * vv - (c * l) * vv + (d * k) * vv) by (nonlinear_arith);
    assert(b * (i * vv - j * uu + k * xx + l * ww + m * rr + n * q - o * tt + p * ss) == b * (i * vv) - b * (j * uu) + b * (k * xx) + b * (l * ww) + b * (m * rr) + b * (n * q) - b * (o * tt) + b * (p * ss)) by (nonlinear_arith);
    assert((a * k + b * l + c * i - d * j) * ww == (a * k) * ww + (b * l) * ww + (c * i) * ww - (d * j) * ww) by (nonlinear_arith);
    assert(c * (i * ww - j * xx - k * uu - l * vv + m * ss + n * tt + o * q - p * rr) == c * (i * ww) - c * (j * xx) - c * (k * uu) - c * (l * vv) + c * (m * ss) + c * (n * tt) + c * (o * q) - c * (p * rr)) by (nonlinear_arith);
    assert((a * l - b * k + c * j + d * i) * xx == (a * l) * xx - (b * k) * xx + (c * j) * xx + (d * i) * xx) by (nonlinear_arith);
    assert(d * (i * xx + j * ww - k * vv + l * uu + m * tt - n * ss + o * rr + p * q) == d * (i * xx) + d * (j * ww) - d * (k * vv) + d * (l * uu) + d * (m * tt) - d * (n * ss) + d * (o * rr) + d * (p * q)) by (nonlinear_arith);
    assert((a * m + b * n + c * o - d * p + e * i - f * j - g * k - h * l) * q == (a * m) * q + (b * n) * q + (c * o) * q - (d * p) * q + (e * i) * q - (f * j) * q - (g * k) * q - (h * l) * q) by (nonlinear_arith);
    assert(e * (i * q - j * rr - k * ss - l * tt) == e * (i * q) - e * (j * rr) - e * (k * ss) - e * (l * tt)) by (nonlinear_arith);
    assert((a * n - b * m + c * p + d * o + e * j + f * i - g * l + h * k) * rr == (a * n) * rr - (b * m) * rr + (c * p) * rr + (d * o) * rr + (e * j) * rr + (f * i) * rr - (g * l) * rr + (h * k) * rr) by (nonlinear_arith);
    assert(f * (i * rr + j * q - k * tt + l * ss) == f * (i * rr) + f * (j * q) - f * (k * tt) + f * (l * ss)) by (nonlinear_arith);
    assert((a * o - b * p - c * m - d * n + e * k + f * l + g * i - h * j) * ss == (a * o) * ss - (b * p) * ss - (c * m) * ss - (d * n) * ss + (e * k) * ss + (f * l) * ss + (g * i) * ss - (h * j) * ss) by (nonlinear_arith);
    assert(g * (i * ss + j * tt + k * q - l * rr) == g * (i * ss) + g * (j * tt) + g * (k * q) - g * (l * rr)) by (nonlinear_arith);
    assert((a * p + b * o - c * n + d * m + e * l - f * k + g * j + h * i) * tt == (a * p) * tt + (b * o) * tt - (c * n) * tt + (d * m) * tt + (e * l) * tt - (f * k) * tt + (g * j) * tt + (h * i) * tt) by (nonlinear_arith);
    assert(h * (i * tt - j * ss + k * rr + l * q) == h * (i * tt) - h * (j * ss) + h * (k * rr) + h * (l * q)) by (nonlinear_arith);
    lemma_mul_is_associative(a, i, uu);
    lemma_mul_is_associative(a, j, vv);
    lemma_mul_is_associative(a, k, ww);
    lemma_mul_is_associative(a, l, xx);
    lemma_mul_is_associative(a, m, q);
    lemma_mul_is_associative(a, n, rr);
    lemma_mul_is_associative(a, o, ss);
    lemma_mul_is_associative(a, p, tt);
    lemma_mul_is_associative(b, i, vv);
    lemma_mul_is_associative(b, j, uu);
    lemma_mul_is_associative(b, k, xx);
    lemma_mul_is_associative(b, l, ww);
    lemma_mul_is_associative(b, m, rr);
    lemma_mul_is_associative(b, n, q);
    lemma_mul_is_associative(b, o, tt);
    lemma_mul_is_associative(b, p, ss);
    lemma_mul_is_associative(c, i, ww);
    lemma_mul_is_associative(c, j, xx);
    lemma_mul_is_associative(c, k, uu);
    lemma_mul_is_associative(c, l, vv);
    lemma_mul_is_associative(c, m, ss);
    lemma_mul_is_associative(c, n, tt);
    lemma_mul_is_associative(c, o, q);
    lemma_mul_is_associative(c, p, rr);
    lemma_mul_is_associative(d, i, xx);
    lemma_mul_is_associative(d, j, ww);
    lemma_mul_is_associative(d, k, vv);
    lemma_mul_is_associative(d, l, uu);
    lemma_mul_is_associative(d, m, tt);
    lemma_mul_is_associative(d, n, ss);
    lemma_mul_is_associative(d, o, rr);
    lemma_mul_is_associative(d, p, q);
    lemma_mul_is_associative(e, i, q);
    lemma_mul_is_associative(e, j, rr);
    lemma_mul_is_associative(e, k, ss);
    lemma_mul_is_associative(e, l, tt);
    lemma_mul_is_associative(f, i, rr);
    lemma_mul_is_associative(f, j, q);
    lemma_mul_is_associative(f, k, tt);
    lemma_mul_is_associative(f, l, ss);
    lemma_mul_is_associative(g, i, ss);
    lemma_mul_is_associative(g, j, tt);
    lemma_mul_is_associative(g, k, q);
    lemma_mul_is_associative(g, l, rr);
    lemma_mul_is_associative(h, i, tt);
    lemma_mul_is_associative(h, j, ss);
    lemma_mul_is_associative(h, k, rr);
    lemma_mul_is_associative(h, l, q);
}

#[verifier::rlimit(50)]
proof fn assoc_e02(a: int, b: int, c: int, d: int, e: int, f: int, g: int, h: int, i: int, j: int, k: int, l: int, m: int, n: int, o: int, p: int, q: int, rr: int, ss: int, tt: int, uu: int, vv: int, ww: int, xx: int)
    ensures
        (a * i - b * j - c * k - d * l) * vv - (a * j + b * i - c * l + d * k) * uu + (a * k + b * l + c * i - d * j) * xx + (a * l - b * k + c * j + d * i) * ww + (a * m + b * n + c * o - d * p + e * i - f * j - g * k - h * l) * rr + (a * n - b * m + c * p + d * o + e * j + f * i - g * l + h * k) * q - (a * o - b * p - c * m - d * n + e * k + f * l + g * i - h * j) * tt + (a * p + b * o - c * n + d * m + e * l - f * k + g * j + h * i) * ss == a * (i * vv - j * uu + k * xx + l * ww + m * rr + n * q - o * tt + p * ss) - b * (i * uu + j * vv + k * ww - l * xx + m * q - n * rr - o * ss - p * tt) + c * (i * xx + j * ww - k * vv + l * uu + m * tt - n * ss + o * rr + p * q) + d * (i * ww - j * xx - k * uu - l * vv + m * ss + n * tt + o * q - p * rr) + e * (i * rr + j * q - k * tt + l * ss) + f * (i * q - j * rr - k * ss - l * tt) - g * (i * tt - j * ss + k * rr + l * q) + h * (i * ss + j * tt + k * q - l * rr),
{
    assert((a * i - b * j - c * k - d * l) * vv == (a * i) * vv - (b * j) * vv - (c * k) * vv - (d * l) * vv) by (nonlinear_arith);
    assert(a * (i * vv - j * uu + k * xx + l * ww + m * rr + n * q - o * tt + p * ss) == a * (i * vv) - a * (j * uu) + a * (k * xx) + a * (l * ww) + a * (m * rr) + a * (n * q) - a * (o * tt) + a * (p * ss)) by (nonlinear_arith);
    assert((a * j + b * i - c * l + d * k) * uu == (a * j) * uu + (b * i) * uu - (c * l) * uu + (d * k) * uu) by (nonlinear_arith);
    assert(b * (i * uu + j * vv + k * ww - l * xx + m * q - n * rr - o * ss - p * tt) == b * (i * uu) + b * (j * vv) + b * (k * ww) - b * (l * xx) + b * (m * q) - b * (n * rr) - b * (o * ss) - b * (p * tt)) by (nonlinear_arith);
    assert((a * k + b * l + c * i - d * j) * xx == (a * k) * xx + (b * l) * xx + (c * i) * xx - (d * j) * xx) by (nonlinear_arith);
    assert(c * (i * xx + j * ww - k * vv + l * uu + m * tt - n * ss + o * rr + p * q) == c * (i * xx) + c * (j * ww) - c * (k * vv) + c * (l * uu) + c * (m * tt) - c * (n * ss) + c * (o * rr) + c * (p * q)) by (nonlinear_arith);
    assert((a * l - b * k + c * j + d * i) * ww == (a * l) * ww - (b * k) * ww + (c * j) * ww + (d * i) * ww) by (nonlinear_arith);
    assert(d * (i * ww - j * xx - k * uu - l * vv + m * ss + n * tt + o * q - p * rr) == d * (i * ww) - d * (j * xx) - d * (k * uu) - d * (l * vv) + d * (m * ss) + d * (n * tt) + d * (o * q) - d * (p * rr)) by (nonlinear_arith);
    assert((a * m + b * n + c * o - d * p + e * i - f * j - g * k - h * l) * rr == (a * m) * rr + (b * n) * rr + (c * o) * rr - (d * p) * rr + (e * i) * rr - (f * j) * rr - (g * k) * rr - (h * l) * rr) by (nonlinear_arith);
    assert(e * (i * rr + j * q - k * tt + l * ss) == e * (i * rr) + e * (j * q) - e * (k * tt) + e * (l * ss)) by (nonlinear_arith);
    assert((a * n - b * m + c * p + d * o + e * j + f * i - g * l + h * k) * q == (a * n) * q - (b * m) * q + (c * p) * q + (d * o) * q + (e * j) * q + (f * i) * q - (g * l) * q + (h * k) * q) by (nonlinear_arith);
    assert(f * (i * q - j * rr - k * ss - l * tt) == f * (i * q) - f * (j * rr) - f * (k * ss) - f * (l * tt)) by (nonlinear_arith);
    assert((a * o - b * p - c * m - d * n + e * k + f * l + g * i - h * j) * tt == (a * o) * tt - (b * p) * tt - (c * m) * tt - (d * n) * tt + (e * k) * tt + (f * l) * tt + (g * i) * tt - (h * j) * tt) by (nonlinear_arith);
    assert(g * (i * tt - j * ss + k * rr + l * q) == g * (i * tt) - g * (j * ss) + g * (k * rr) + g * (l * q)) by (nonlinear_arith);
    assert((a * p + b * o - c * n + d * m + e * l - f * k + g * j + h * i) * ss == (a * p) * ss + (b * o) * ss - (c * n) * ss + (d * m) * ss + (e * l) * ss - (f * k) * ss + (g * j) * ss + (h * i) * ss) by (nonlinear_arith);
    assert(h * (i * ss + j * tt + k * q - l * rr) == h * (i * ss) + h * (j * tt) + h * (k * q) - h * (l * rr)) by (nonlinear_arith);
    lemma_mul_is_associative(a, i, vv);
    lemma_mul_is_associative(a, j, uu);
    lemma_mul_is_associative(a, k, xx);
    lemma_mul_is_associative(a, l, ww);
    lemma_mul_is_associative(a, m, rr);
    lemma_mul_is_associative(a, n, q);
    lemma_mul_is_associative(a, o, tt);
    lemma_mul_is_associative(a, p, ss);
    lemma_mul_is_associative(b, i, uu);
    lemma_mul_is_associative(b, j, vv);
    lemma_mul_is_associative(b, k, ww);
    lemma_mul_is_associative(b, l, xx);
    lemma_mul_is_associative(b, m, q);
    lemma_mul_is_associative(b, n, rr);
    lemma_mul_is_associative(b, o, ss);
    lemma_mul_is_associative(b, p, tt);
    lemma_mul_is_associative(c, i, xx);
    lemma_mul_is_associative(c, j, ww);
    lemma_mul_is_associative(c, k, vv);
    lemma_mul_is_associative(c, l, uu);
    lemma_mul_is_associative(c, m, tt);
    lemma_mul_is_associative(c, n, ss);
    lemma_mul_is_associative(c, o, rr);
    lemma_mul_is_associative(c, p, q);
    lemma_mul_is_associative(d, i, ww);
    lemma_mul_is_associative(d, j, xx);
    lemma_mul_is_associative(d, k, uu);
    lemma_mul_is_associative(d, l, vv);
    lemma_mul_is_associative(d, m, ss);
    lemma_mul_is_associative(d, n, tt);
    lemma_mul_is_associative(d, o, q);
    lemma_mul_is_associative(d, p, rr);
    lemma_mul_is_associative(e, i, rr);
    lemma_mul_is_associative(e, j, q);
    lemma_mul_is_associative(e, k, tt);
    lemma_mul_is_associative(e, l, ss);
    lemma_mul_is_associative(f, i, q);
    lemma_mul_is_associative(f, j, rr);
    lemma_mul_is_associative(f, k, ss);
    lemma_mul_is_associative(f, l, tt);
    lemma_mul_is_associative(g, i, tt);
    lemma_mul_is_associative(g, j, ss);
    lemma_mul_is_associative(g, k, rr);
    lemma_mul_is_associative(g, l, q);
    lemma_mul_is_associative(h, i, ss);
    lemma_mul_is_associative(h, j, tt);
    lemma_mul_is_associative(h, k, q);
    lemma_mul_is_associative(h, l, rr);
}

#[verifier::rlimit(50)]
proof fn assoc_e03(a: int, b: int, c: int, d: int, e: int, f: int, g: int, h: int, i: int, j: int, k: int, l: int, m: int, n: int, o: int, p: int, q: int, rr: int, ss: int, tt: int, uu: int, vv: int, ww: int, xx: int)
    ensures
        (a * i - b * j - c * k - d * l) * ww - (a * j + b * i - c * l + d * k) * xx - (a * k + b * l + c * i - d * j) * uu - (a * l - b * k + c * j + d * i) * vv + (a * m + b * n + c * o - d * p + e * i - f * j - g * k - h * l) * ss + (a * n - b * m + c * p + d * o + e * j + f * i - g * l + h * k) * tt + (a * o - b * p - c * m - d * n + e * k + f * l + g * i - h * j) * q - (a * p + b * o - c * n + d * m + e * l - f * k + g * j + h * i) * rr == a * (i * ww - j * xx - k * uu - l * vv + m * ss + n * tt + o * q - p * rr) - b * (i * xx + j * ww - k * vv + l * uu + m * tt - n * ss + o * rr + p * q) - c * (i * uu + j * vv + k * ww - l * xx + m * q - n * rr - o * ss - p * tt) - d * (i * vv - j * uu + k * xx + l * ww + m * rr + n * q - o * tt + p * ss) + e * (i * ss + j * tt + k * q - l * rr) + f * (i * tt - j * ss + k * rr + l * q) + g * (i * q - j * rr - k * ss - l * tt) - h * (i * rr + j * q - k * tt + l * ss),
{
    assert((a * i - b * j - c * k - d * l) * ww == (a * i) * ww - (b * j) * ww - (c * k) * ww - (d * l) * ww) by (nonlinear_arith);
    assert(a * (i * ww - j * xx - k * uu - l * vv + m * ss + n * tt + o * q - p * rr) == a * (i * ww) - a * (j * xx) - a * (k * uu) - a * (l * vv) + a * (m * ss) + a * (n * tt) + a * (o * q) - a * (p * rr)) by (nonlinear_arith);
    assert((a * j + b * i - c * l + d * k) * xx == (a * j) * xx + (b * i) * xx - (c * l) * xx + (d * k) * xx) by (nonlinear_arith);
    assert(b * (i * xx + j * ww - k * vv + l * uu + m * tt - n * ss + o * rr + p * q) == b * (i * xx) + b * (j * ww) - b * (k * vv) + b * (l * uu) + b * (m * tt) - b * (n * ss) + b * (o * rr) + b * (p * q)) by (nonlinear_arith);
    assert((a * k + b * l + c * i - d * j) * uu == (a * k) * uu + (b * l) * uu + (c * i) * uu - (d * j) * uu) by (nonlinear_arith);
    assert(c * (i * uu + j * vv + k * ww - l * xx + m * q - n * rr - o * ss - p * tt) == c * (i * uu) + c * (j * vv) + c * (k * ww) - c * (l * xx) + c * (m * q) - c * (n * rr) - c * (o * ss) - c * (p * tt)) by (nonlinear_arith);
    assert((a * l - b * k + c * j + d * i) * vv == (a * l) * vv - (b * k) * vv + (c * j) * vv + (d * i) * vv) by (nonlinear_arith);
    assert(d * (i * vv - j * uu + k * xx + l * ww + m * rr + n * q - o * tt + p * ss) == d * (i * vv) - d * (j * uu) + d * (k * xx) + d * (l * ww) + d * (m * rr) + d * (n * q) - d * (o * tt) + d * (p * ss)) by (nonlinear_arith);
    assert((a * m + b * n + c * o - d * p + e * i - f * j - g * k - h * l) * ss == (a * m) * ss + (b * n) * ss + (c * o) * ss - (d * p) * ss + (e * i) * ss - (f * j) * ss - (g * k) * ss - (h * l) * ss) by (nonlinear_arith);
    assert(e * (i * ss + j * tt + k * q - l * rr) == e * (i * ss) + e * (j * tt) + e * (k * q) - e * (l * rr)) by (nonlinear_arith);
    assert((a * n - b * m + c * p + d * o + e * j + f * i - g * l + h * k) * tt == (a * n) * tt - (b * m) * tt + (c * p) * tt + (d * o) * tt + (e * j) * tt + (f * i) * tt - (g * l) * tt + (h * k) * tt) by (nonlinear_arith);
    assert(f * (i * tt - j * ss + k * rr + l * q) == f * (i * tt) - f * (j * ss) + f * (k * rr) + f * (l * q)) by (nonlinear_arith);
    assert((a * o - b * p - c * m - d * n + e * k + f * l + g * i - h * j) * q == (a * o) * q - (b * p) * q - (c * m) * q - (d * n) * q + (e * k) * q + (f * l) * q + (g * i) * q - (h * j) * q) by (nonlinear_arith);
    assert(g * (i * q - j * rr - k * ss - l * tt) == g * (i * q) - g * (j * rr) - g * (k * ss) - g * (l * tt)) by (nonlinear_arith);
    assert((a * p + b * o - c * n + d * m + e * l - f * k + g * j + h * i) * rr == (a * p) * rr + (b * o) * rr - (c * n) * rr + (d * m) * rr + (e * l) * rr - (f * k) * rr + (g * j) * rr + (h * i) * rr) by (nonlinear_arith);
    assert(h * (i * rr + j * q - k * tt + l * ss) == h * (i * rr) + h * (j * q) - h * (k * tt) + h * (l * ss)) by (nonlinear_arith);
    lemma_mul_is_associative(a, i, ww);
    lemma_mul_is_associative(a, j, xx);
    lemma_mul_is_associative(a, k, uu);
    lemma_mul_is_associative(a, l, vv);
    lemma_mul_is_associative(a, m, ss);
    lemma_mul_is_associative(a, n, tt);
    lemma_mul_is_associative(a, o, q);
    lemma_mul_is_associative(a, p, rr);
    lemma_mul_is_associative(b, i, xx);
    lemma_mul_is_associative(b, j, ww);
    lemma_mul_is_associative(b, k, vv);
    lemma_mul_is_associative(b, l, uu);
    lemma_mul_is_associative(b, m, tt);
    lemma_mul_is_associative(b, n, ss);
    lemma_mul_is_associative(b, o, rr);
    lemma_mul_is_associative(b, p, q);
    lemma_mul_is_associative(c, i, uu);
    lemma_mul_is_associative(c, j, vv);
    lemma_mul_is_associative(c, k, ww);
    lemma_mul_is_associative(c, l, xx);
    lemma_mul_is_associative(c, m, q);
    lemma_mul_is_associative(c, n, rr);
    lemma_mul_is_associative(c, o, ss);
    lemma_mul_is_associative(c, p, tt);
    lemma_mul_is_associative(d, i, vv);
    lemma_mul_is_associative(d, j, uu);
    lemma_mul_is_associative(d, k, xx);
    lemma_mul_is_associative(d, l, ww);
    lemma_mul_is_associative(d, m, rr);
    lemma_mul_is_associative(d, n, q);
    lemma_mul_is_associative(d, o, tt);
    lemma_mul_is_associative(d, p, ss);
    lemma_mul_is_associative(e, i, ss);
    lemma_mul_is_associative(e, j, tt);
    lemma_mul_is_associative(e, k, q);
    lemma_mul_is_associative(e, l, rr);
    lemma_mul_is_associative(f, i, tt);
    lemma_mul_is_associative(f, j, ss);
    lemma_mul_is_associative(f, k, rr);
    lemma_mul_is_associative(f, l, q);
    lemma_mul_is_associative(g, i, q);
    lemma_mul_is_associative(g, j, rr);
    lemma_mul_is_associative(g, k, ss);
    lemma_mul_is_associative(g, l, tt);
    lemma_mul_is_associative(h, i, rr);
    lemma_mul_is_associative(h, j, q);
    lemma_mul_is_associative(h, k, tt);
    lemma_mul_is_associative(h, l, ss);
}

#[verifier::rlimit(50)]
proof fn assoc_e0123(a: int, b: int, c: int, d: int, e: int, f: int, g: int, h: int, i: int, j: int, k: int, l: int, m: int, n: int, o: int, p: int, q: int, rr: int, ss: int, tt: int, uu: int, vv: int, ww: int, xx: int)
    ensures
        (a * i - b * j - c * k - d * l) * xx + (a * j + b * i - c * l + d * k) * ww - (a * k + b * l + c * i - d * j) * vv + (a * l - b * k + c * j + d * i) * uu + (a * m + b * n + c * o - d * p + e * i - f * j - g * k - h * l) * tt - (a * n - b * m + c * p + d * o + e * j + f * i - g * l + h * k) * ss + (a * o - b * p - c * m - d * n + e * k + f * l + g * i - h * j) * rr + (a * p + b * o - c * n + d * m + e * l - f * k + g * j + h * i) * q == a * (i * xx + j * ww - k * vv + l * uu + m * tt - n * ss + o * rr + p * q) + b * (i * ww - j * xx - k * uu - l * vv + m * ss + n * tt + o * q - p * rr) - c * (i * vv - j * uu + k * xx + l * ww + m * rr + n * q - o * tt + p * ss) + d * (i * uu + j * vv + k * ww - l * xx + m * q - n * rr - o * ss - p * tt) + e * (i * tt - j * ss + k * rr + l * q) - f * (i * ss + j * tt + k * q - l * rr) + g * (i * rr + j * q - k * tt + l * ss) + h * (i * q - j * rr - k * ss - l * tt),
{
    assert((a * i - b * j - c * k - d * l) * xx == (a * i) * xx - (b * j) * xx - (c * k) * xx - (d * l) * xx) by (nonlinear_arith);
    assert(a * (i * xx + j * ww - k * vv + l * uu + m * tt - n * ss + o * rr + p * q) == a * (i * xx) + a * (j * ww) - a * (k * vv) + a * (l * uu) + a * (m * tt) - a * (n * ss) + a * (o * rr) + a * (p * q)) by (nonlinear_arith);
    assert((a * j + b * i - c * l + d * k) * ww == (a * j) * ww + (b * i) * ww - (c * l) * ww + (d * k) * ww) by (nonlinear_arith);
    assert(b * (i * ww - j * xx - k * uu - l * vv + m * ss + n * tt + o * q - p * rr) == b * (i * ww) - b * (j * xx) - b * (k * uu) - b * (l * vv) + b * (m * ss) + b * (n * tt) + b * (o * q) - b * (p * rr)) by (nonlinear_arith);
    assert((a * k + b * l + c * i - d * j) * vv == (a * k) * vv + (b * l) * vv + (c * i) * vv - (d * j) * vv) by (nonlinear_arith);
    assert(c * (i * vv - j * uu + k * xx + l * ww + m * rr + n * q - o * tt + p * ss) == c * (i * vv) - c * (j * uu) + c * (k * xx) + c * (l * ww) + c * (m * rr) + c * (n * q) - c * (o * tt) + c * (p * ss)) by (nonlinear_arith);
    assert((a * l - b * k + c * j + d * i) * uu == (a * l) * uu - (b * k) * uu + (c * j) * uu + (d * i) * uu) by (nonlinear_arith);
    assert(d * (i * uu + j * vv + k * ww - l * xx + m * q - n * rr - o * ss - p * tt) == d * (i * uu) + d * (j * vv) + d * (k * ww) - d * (l * xx) + d * (m * q) - d * (n * rr) - d * (o * ss) - d * (p * tt)) by (nonlinear_arith);
    assert((a * m + b * n + c * o - d * p + e * i - f * j - g * k - h * l) * tt == (a * m) * tt + (b * n) * tt + (c * o) * tt - (d * p) * tt + (e * i) * tt - (f * j) * tt - (g * k) * tt - (h * l) * tt) by (nonlinear_arith);
    assert(e * (i * tt - j * ss + k * rr + l * q) == e * (i * tt) - e * (j * ss) + e * (k * rr) + e * (l * q)) by (nonlinear_arith);
    assert((a * n - b * m + c * p + d * o + e * j + f * i - g * l + h * k) * ss == (a * n) * ss - (b * m) * ss + (c * p) * ss + (d * o) * ss + (e * j) * ss + (f * i) * ss - (g * l) * ss + (h * k) * ss) by (nonlinear_arith);
    assert(f * (i * ss + j * tt + k * q - l * rr) == f * (i * ss) + f * (j * tt) + f * (k * q) - f * (l * rr)) by (nonlinear_arith);
    assert((a * o - b * p - c * m - d * n + e * k + f * l + g * i - h * j) * rr == (a * o) * rr - (b * p) * rr - (c * m) * rr - (d * n) * rr + (e * k) * rr + (f * l) * rr + (g * i) * rr - (h * j) * rr) by (nonlinear_arith);
    assert(g * (i * rr + j * q - k * tt + l * ss) == g * (i * rr) + g * (j * q) - g * (k * tt) + g * (l * ss)) by (nonlinear_arith);
    assert((a * p + b * o - c * n + d * m + e * l - f * k + g * j + h * i) * q == (a * p) * q + (b * o) * q - (c * n) * q + (d * m) * q + (e * l) * q - (f * k) * q + (g * j) * q + (h * i) * q) by (nonlinear_arith);
    assert(h * (i * q - j * rr - k * ss - l * tt) == h * (i * q) - h * (j * rr) - h * (k * ss) - h * (l * tt)) by (nonlinear_arith);
    lemma_mul_is_associative(a, i, xx);
    lemma_mul_is_associative(a, j, ww);
    lemma_mul_is_associative(a, k, vv);
    lemma_mul_is_associative(a, l, uu);
    lemma_mul_is_associative(a, m, tt);
    lemma_mul_is_associative(a, n, ss);
    lemma_mul_is_associative(a, o, rr);
    lemma_mul_is_associative(a, p, q);
    lemma_mul_is_associative(b, i, ww);
    lemma_mul_is_associative(b, j, xx);
    lemma_mul_is_associative(b, k, uu);
    lemma_mul_is_associative(b, l, vv);
    lemma_mul_is_associative(b, m, ss);
    lemma_mul_is_associative(b, n, tt);
    lemma_mul_is_associative(b, o, q);
    lemma_mul_is_associative(b, p, rr);
    lemma_mul_is_associative(c, i, vv);
    lemma_mul_is_associative(c, j, uu);
    lemma_mul_is_associative(c, k, xx);
    lemma_mul_is_associative(c, l, ww);
    lemma_mul_is_associative(c, m, rr);
    lemma_mul_is_associative(c, n, q);
    lemma_mul_is_associative(c, o, tt);
    lemma_mul_is_associative(c, p, ss);
    lemma_mul_is_associative(d, i, uu);
    lemma_mul_is_associative(d, j, vv);
    lemma_mul_is_associative(d, k, ww);
    lemma_mul_is_associative(d, l, xx);
    lemma_mul_is_associative(d, m, q);
    lemma_mul_is_associative(d, n, rr);
    lemma_mul_is_associative(d, o, ss);
    lemma_mul_is_associative(d, p, tt);
    lemma_mul_is_associative(e, i, tt);
    lemma_mul_is_associative(e, j, ss);
    lemma_mul_is_associative(e, k, rr);
    lemma_mul_is_associative(e, l, q);
    lemma_mul_is_associative(f, i, ss);
    lemma_mul_is_associative(f, j, tt);
    lemma_mul_is_associative(f, k, q);
    lemma_mul_is_associative(f, l, rr);
    lemma_mul_is_associative(g, i, rr);
    lemma_mul_is_associative(g, j, q);
    lemma_mul_is_associative(g, k, tt);
    lemma_mul_is_associative(g, l, ss);
    lemma_mul_is_associative(h, i, q);
    lemma_mul_is_associative(h, j, rr);
    lemma_mul_is_associative(h, k, ss);
    lemma_mul_is_associative(h, l, tt);
}

/// Associativity: over the exact model, the geometric product of motors
/// is associative.  The executable composition computes this product with
/// each pairwise product truncated; the rounding bridge bounds how far each
/// computed composition sits from the exact one, so chained applications
/// agree within the stated per-component tolerance whichever way they are
/// grouped.
pub proof fn lemma_apply_assoc(x: MotorV, y: MotorV, z: MotorV)
    ensures
        exact_apply(exact_apply(x, y), z) == exact_apply(x, exact_apply(y, z)),
{
    assoc_s(x.s, x.e12, x.e13, x.e23, x.e01, x.e02, x.e03, x.e0123, y.s, y.e12, y.e13, y.e23, y.e01, y.e02, y.e03, y.e0123, z.s, z.e12, z.e13, z.e23, z.e01, z.e02, z.e03, z.e0123);
    assoc_e12(x.s, x.e12, x.e13, x.e23, x.e01, x.e02, x.e03, x.e0123, y.s, y.e12, y.e13, y.e23, y.e01, y.e02, y.e03, y.e0123, z.s, z.e12, z.e13, z.e23, z.e01, z.e02, z.e03, z.e0123);
    assoc_e13(x.s, x.e12, x.e13, x.e23, x.e01, x.e02, x.e03, x.e0123, y.s, y.e12, y.e13, y.e23, y.e01, y.e02, y.e03, y.e0123, z.s, z.e12, z.e13, z.e23, z.e01, z.e02, z.e03, z.e0123);
    assoc_e23(x.s, x.e12, x.e13, x.e23, x.e01, x.e02, x.e03, x.e0123, y.s, y.e12, y.e13, y.e23, y.e01, y.e02, y.e03, y.e0123, z.s, z.e12, z.e13, z.e23, z.e01, z.e02, z.e03, z.e0123);
    assoc_e01(x.s, x.e12, x.e13, x.e23, x.e01, x.e02, x.e03, x.e0123, y.s, y.e12, y.e13, y.e23, y.e01, y.e02, y.e03, y.e0123, z.s, z.e12, z.e13, z.e23, z.e01, z.e02, z.e03, z.e0123);
    assoc_e02(x.s, x.e12, x.e13, x.e23, x.e01, x.e02, x.e03, x.e0123, y.s, y.e12, y.e13, y.e23, y.e01, y.e02, y.e03, y.e0123, z.s, z.e12, z.e13, z.e23, z.e01, z.e02, z.e03, z.e0123);
    assoc_e03(x.s, x.e12, x.e13, x.e23, x.e01, x.e02, x.e03, x.e0123, y.s, y.e12, y.e13, y.e23, y.e01, y.e02, y.e03, y.e0123, z.s, z.e12, z.e13, z.e23, z.e01, z.e02, z.e03, z.e0123);
    assoc_e0123(x.s, x.e12, x.e13, x.e23, x.e01, x.e02, x.e03, x.e0123, y.s, y.e12, y.e13, y.e23, y.e01, y.e02, y.e03, y.e0123, z.s, z.e12, z.e13, z.e23, z.e01, z.e02, z.e03, z.e0123);
}

/// The rounding bridge: every component of the computed composition,
/// rescaled by the fixed-point scale, sits within one scale unit per
/// summand below the exact geometric product of the same bit patterns, and
/// never above it.  Four summands make up each scalar and rotation
/// component, eight each translation and pseudoscalar component.
pub proof fn lemma_apply_rounding(x: MotorV, y: MotorV)
    ensures
        exact_apply(x, y).s - 4 * (FRAC_SCALE as int) < (FRAC_SCALE as int) * spec_apply(x, y).s,
        (FRAC_SCALE as int) * spec_apply(x, y).s <= exact_apply(x, y).s,
        exact_apply(x, y).e12 - 4 * (FRAC_SCALE as int) < (FRAC_SCALE as int) * spec_apply(x, y).e12,
        (FRAC_SCALE as int) * spec_apply(x, y).e12 <= exact_apply(x, y).e12,
        exact_apply(x, y).e13 - 4 * (FRAC_SCALE as int) < (FRAC_SCALE as int) * spec_apply(x, y).e13,
        (FRAC_SCALE as int) * spec_apply(x, y).e13 <= exact_apply(x, y).e13,
        exact_apply(x, y).e23 - 4 * (FRAC_SCALE as int) < (FRAC_SCALE as int) * spec_apply(x, y).e23,
        (FRAC_SCALE as int) * spec_apply(x, y).e23 <= exact_apply(x, y).e23,
        exact_apply(x, y).e01 - 8 * (FRAC_SCALE as int) < (FRAC_SCALE as int) * spec_apply(x, y).e01,
        (FRAC_SCALE as int) * spec_apply(x, y).e01 <= exact_apply(x, y).e01,
        exact_apply(x, y).e02 - 8 * (FRAC_SCALE as int) < (FRAC_SCALE as int) * spec_apply(x, y).e02,
        (FRAC_SCALE as int) * spec_apply(x, y).e02 <= exact_apply(x, y).e02,
        exact_apply(x, y).e03 - 8 * (FRAC_SCALE as int) < (FRAC_SCALE as int) * spec_apply(x, y).e03,
        (FRAC_SCALE as int) * spec_apply(x, y).e03 <= exact_apply(x, y).e03,
        exact_apply(x, y).e0123 - 8 * (FRAC_SCALE as int) < (FRAC_SCALE as int) * spec_apply(x, y).e0123,
        (FRAC_SCALE as int) * spec_apply(x, y).e0123 <= exact_apply(x, y).e0123,
{
    lemma_fx_mul_floor(x.e01, y.e12);
    lemma_fx_mul_floor(x.e01, y.e13);
    lemma_fx_mul_floor(x.e01, y.e23);
    lemma_fx_mul_floor(x.e01, y.s);
    lemma_fx_mul_floor(-x.e0123, y.e12);
    lemma_mul_unary_negation(x.e0123, y.e12);
    lemma_fx_mul_floor(x.e0123, y.e13);
    lemma_fx_mul_floor(-x.e0123, y.e23);
    lemma_mul_unary_negation(x.e0123, y.e23);
    lemma_fx_mul_floor(x.e0123, y.s);
    lemma_fx_mul_floor(-x.e02, y.e12);
    lemma_mul_unary_negation(x.e02, y.e12);
    lemma_fx_mul_floor(-x.e02, y.e13);
    lemma_mul_unary_negation(x.e02, y.e13);
    lemma_fx_mul_floor(x.e02, y.e23);
    lemma_fx_mul_floor(x.e02, y.s);
    lemma_fx_mul_floor(x.e03, y.e12);
    lemma_fx_mul_floor(-x.e03, y.e13);
    lemma_mul_unary_negation(x.e03, y.e13);
    lemma_fx_mul_floor(-x.e03, y.e23);
    lemma_mul_unary_negation(x.e03, y.e23);
    lemma_fx_mul_floor(x.e03, y.s);
    lemma_fx_mul_floor(-x.e12, y.e01);
    lemma_mul_unary_negation(x.e12, y.e01);
    lemma_fx_mul_floor(-x.e12, y.e0123);
    lemma_mul_unary_negation(x.e12, y.e0123);
    lemma_fx_mul_floor(x.e12, y.e02);
    lemma_fx_mul_floor(x.e12, y.e03);
    lemma_fx_mul_floor(-x.e12, y.e12);
    lemma_mul_unary_negation(x.e12, y.e12);
    lemma_fx_mul_floor(-x.e12, y.e13);
    lemma_mul_unary_negation(x.e12, y.e13);
    lemma_fx_mul_floor(x.e12, y.e23);
    lemma_fx_mul_floor(x.e12, y.s);
    lemma_fx_mul_floor(-x.e13, y.e01);
    lemma_mul_unary_negation(x.e13, y.e01);
    lemma_fx_mul_floor(x.e13, y.e0123);
    lemma_fx_mul_floor(-x.e13, y.e02);
    lemma_mul_unary_negation(x.e13, y.e02);
    lemma_fx_mul_floor(x.e13, y.e03);
    lemma_fx_mul_floor(x.e13, y.e12);
    lemma_fx_mul_floor(-x.e13, y.e13);
    lemma_mul_unary_negation(x.e13, y.e13);
    lemma_fx_mul_floor(-x.e13, y.e23);
    lemma_mul_unary_negation(x.e13, y.e23);
    lemma_fx_mul_floor(x.e13, y.s);
    lemma_fx_mul_floor(x.e23, y.e01);
    lemma_fx_mul_floor(-x.e23, y.e0123);
    lemma_mul_unary_negation(x.e23, y.e0123);
    lemma_fx_mul_floor(-x.e23, y.e02);
    lemma_mul_unary_negation(x.e23, y.e02);
    lemma_fx_mul_floor(x.e23, y.e03);
    lemma_fx_mul_floor(-x.e23, y.e12);
    lemma_mul_unary_negation(x.e23, y.e12);
    lemma_fx_mul_floor(x.e23, y.e13);
    lemma_fx_mul_floor(-x.e23, y.e23);
    lemma_mul_unary_negation(x.e23, y.e23);
    lemma_fx_mul_floor(x.e23, y.s);
    lemma_fx_mul_floor(x.s, y.e01);
    lemma_fx_mul_floor(x.s, y.e0123);
    lemma_fx_mul_floor(x.s, y.e02);
    lemma_fx_mul_floor(x.s, y.e03);
    lemma_fx_mul_floor(x.s, y.e12);
    lemma_fx_mul_floor(x.s, y.e13);
    lemma_fx_mul_floor(x.s, y.e23);
    lemma_fx_mul_floor(x.s, y.s);
}

/// A single truncated product, rescaled, sits within one scale unit below
/// the exact product and never above it.
proof fn lemma_fx_mul_floor(p: int, q: int)
    ensures
        p * q - (FRAC_SCALE as int) < (FRAC_SCALE as int) * fx_mul(p, q) <= p * q,
{
    lemma_fundamental_div_mod(p * q, FRAC_SCALE as int);
    lemma_mod_bound(p * q, FRAC_SCALE as int);
}


/// Inverse law for the computed values: a motor that represents a rigid
/// motion (zero Study quantity) at exactly unit norm, composed with its
/// reversion in the truncated model, has a scalar part within four bits of
/// one, rotation bivectors within four bits of zero, and the remaining
/// components within eight bits of zero.
pub proof fn lemma_inverse_law(t: MotorV)
    requires
        exact_study(t) == 0,
        exact_norm2(t) == (ONE_BITS as int) * (ONE_BITS as int),
    ensures
        ({
            let r = spec_apply(t, spec_inverse(t));
            &&& (ONE_BITS as int) - 4 < r.s <= ONE_BITS as int
            &&& -4 < r.e12 <= 0
            &&& -4 < r.e13 <= 0
            &&& -4 < r.e23 <= 0
            &&& -8 < r.e01 <= 0
            &&& -8 < r.e02 <= 0
            &&& -8 < r.e03 <= 0
            &&& -8 < r.e0123 <= 0
        }),
{
    lemma_inverse_self_product(t);
    lemma_apply_rounding(t, spec_inverse(t));
    assert((ONE_BITS as int) * (ONE_BITS as int) == (FRAC_SCALE as int) * (ONE_BITS as int));
}

/// The constructors produce rigid motions: the translation by any offset
/// and a rotor with any scalar and single bivector component have zero
/// Study quantity over the exact model.
pub proof fn lemma_constructors_rigid(v: Vec3V, cos: int, sin: int)
    ensures
        exact_study(spec_translation(v)) == 0,
        exact_study(MotorV { s: cos, e12: sin, e13: 0, e23: 0, e01: 0, e02: 0, e03: 0, e0123: 0 })
            == 0,
        exact_study(MotorV { s: cos, e12: 0, e13: sin, e23: 0, e01: 0, e02: 0, e03: 0, e0123: 0 })
            == 0,
        exact_study(MotorV { s: cos, e12: 0, e13: 0, e23: sin, e01: 0, e02: 0, e03: 0, e0123: 0 })
            == 0,
{
    lemma_mul_basics(ONE_BITS as int);
    lemma_mul_basics(cos);
    lemma_mul_basics(sin);
    lemma_mul_basics(fx_mul(v.x, -(HALF_BITS as int)));
    lemma_mul_basics(fx_mul(v.y, -(HALF_BITS as int)));
    lemma_mul_basics(fx_mul(v.z, -(HALF_BITS as int)));
    lemma_mul_basics(0);
}


/// Every non-negative integer has a rounded-down square root.
pub proof fn lemma_sqrt_exists(n: int)
    requires
        n >= 0,
    ensures
        exists|r: int| #[trigger] is_sqrt_floor(n, r),
    decreases n,
{
    if n == 0 {
        assert(is_sqrt_floor(0, 0));
    } else {
        lemma_sqrt_exists(n - 1);
        let r = choose|r: int| #[trigger] is_sqrt_floor(n - 1, r);
        if (r + 1) * (r + 1) <= n {
            assert(is_sqrt_floor(n, r + 1)) by (nonlinear_arith)
                requires
                    r >= 0,
                    r * r <= n - 1,
                    n - 1 < (r + 1) * (r + 1),
                    (r + 1) * (r + 1) <= n,
            ;
        } else {
            assert(is_sqrt_floor(n, r));
        }
    }
}

/// Magnitude near one: a motor whose computed squared magnitude sits within
/// four bits of one — as the inverse law guarantees for any rigid motion at
/// exactly unit norm — has a computed magnitude within two bits of one.
/// Together with the idempotence of exact rescaling this is the content of
/// normalization: renormalizing an already normalized motor cannot move its
/// magnitude away from one.
pub proof fn lemma_magnitude_near_unit(t: MotorV)
    requires
        (ONE_BITS as int) - 4 < spec_magnitude_squared(t) <= ONE_BITS as int,
    ensures
        (ONE_BITS as int) - 2 <= spec_magnitude(t) <= ONE_BITS as int,
{
    let one = ONE_BITS as int;
    let msq = spec_magnitude_squared(t);
    let n = msq * (FRAC_SCALE as int);
    assert(n >= 0) by (nonlinear_arith)
        requires
            n == msq * (FRAC_SCALE as int),
            msq >= 0,
    ;
    lemma_sqrt_exists(n);
    let r = choose|r: int| #[trigger] is_sqrt_floor(n, r);
    assert(spec_magnitude(t) == r) by {
        crate::number::lemma_sqrt_floor_unique(n, r, fx_sqrt(msq));
    }
    assert((one - 3) * (FRAC_SCALE as int) <= n <= one * (FRAC_SCALE as int))
        by (nonlinear_arith)
        requires
            n == msq * (FRAC_SCALE as int),
            one - 4 < msq <= one,
            one == FRAC_SCALE as int,
    ;
    assert(r <= one) by (nonlinear_arith)
        requires
            r >= 0,
            r * r <= n,
            n <= one * one,
            one > 0,
    ;
    assert(r >= one - 2) by (nonlinear_arith)
        requires
            r >= 0,
            n < (r + 1) * (r + 1),
            (one - 3) * one <= n,
            one == 4294967296,
    ;
}

/// The componentwise difference of two motor models.
pub open spec fn motor_sub(x: MotorV, y: MotorV) -> MotorV {
    MotorV {
        s: x.s - y.s,
        e12: x.e12 - y.e12,
        e13: x.e13 - y.e13,
        e23: x.e23 - y.e23,
        e01: x.e01 - y.e01,
        e02: x.e02 - y.e02,
        e03: x.e03 - y.e03,
        e0123: x.e0123 - y.e0123,
    }
}

/// Every component of the motor model lies within `b` of zero.
pub open spec fn motor_bounded(t: MotorV, b: int) -> bool {
    &&& -b <= t.s <= b
    &&& -b <= t.e12 <= b
    &&& -b <= t.e13 <= b
    &&& -b <= t.e23 <= b
    &&& -b <= t.e01 <= b
    &&& -b <= t.e02 <= b
    &&& -b <= t.e03 <= b
    &&& -b <= t.e0123 <= b
}

/// The exact product is linear in its left factor.
proof fn lemma_exact_apply_sub_left(x: MotorV, u: MotorV, y: MotorV)
    ensures
        exact_apply(motor_sub(x, u), y) == motor_sub(exact_apply(x, y), exact_apply(u, y)),
{
    assert((x.s - u.s) * y.s == x.s * y.s - u.s * y.s) by (nonlinear_arith);
    assert((x.e12 - u.e12) * y.e12 == x.e12 * y.e12 - u.e12 * y.e12) by (nonlinear_arith);
    assert((x.e13 - u.e13) * y.e13 == x.e13 * y.e13 - u.e13 * y.e13) by (nonlinear_arith);
    assert((x.e23 - u.e23) * y.e23 == x.e23 * y.e23 - u.e23 * y.e23) by (nonlinear_arith);
    assert((x.s - u.s) * y.e12 == x.s * y.e12 - u.s * y.e12) by (nonlinear_arith);
    assert((x.e12 - u.e12) * y.s == x.e12 * y.s - u.e12 * y.s) by (nonlinear_arith);
    assert((x.e13 - u.e13) * y.e23 == x.e13 * y.e23 - u.e13 * y.e23) by (nonlinear_arith);
    assert((x.e23 - u.e23) * y.e13 == x.e23 * y.e13 - u.e23 * y.e13) by (nonlinear_arith);
    assert((x.s - u.s) * y.e13 == x.s * y.e13 - u.s * y.e13) by (nonlinear_arith);
    assert((x.e12 - u.e12) * y.e23 == x.e12 * y.e23 - u.e12 * y.e23) by (nonlinear_arith);
    assert((x.e13 - u.e13) * y.s == x.e13 * y.s - u.e13 * y.s) by (nonlinear_arith);
    assert((x.e23 - u.e23) * y.e12 == x.e23 * y.e12 - u.e23 * y.e12) by (nonlinear_arith);
    assert((x.s - u.s) * y.e23 == x.s * y.e23 - u.s * y.e23) by (nonlinear_arith);
    assert((x.e12 - u.e12) * y.e13 == x.e12 * y.e13 - u.e12 * y.e13) by (nonlinear_arith);
    assert((x.e13 - u.e13) * y.e12 == x.e13 * y.e12 - u.e13 * y.e12) by (nonlinear_arith);
    assert((x.e23 - u.e23) * y.s == x.e23 * y.s - u.e23 * y.s) by (nonlinear_arith);
    assert((x.s - u.s) * y.e01 == x.s * y.e01 - u.s * y.e01) by (nonlinear_arith);
    assert((x.e12 - u.e12) * y.e02 == x.e12 * y.e02 - u.e12 * y.e02) by (nonlinear_arith);
    assert((x.e13 - u.e13) * y.e03 == x.e13 * y.e03 - u.e13 * y.e03) by (nonlinear_arith);
    assert((x.e23 - u.e23) * y.e0123 == x.e23 * y.e0123 - u.e23 * y.e0123) by (nonlinear_arith);
    assert((x.e01 - u.e01) * y.s == x.e01 * y.s - u.e01 * y.s) by (nonlinear_arith);
    assert((x.e02 - u.e02) * y.e12 == x.e02 * y.e12 - u.e02 * y.e12) by (nonlinear_arith);
    assert((x.e03 - u.e03) * y.e13 == x.e03 * y.e13 - u.e03 * y.e13) by (nonlinear_arith);
    assert((x.e0123 - u.e0123) * y.e23 == x.e0123 * y.e23 - u.e0123 * y.e23) by (nonlinear_arith);
    assert((x.s - u.s) * y.e02 == x.s * y.e02 - u.s * y.e02) by (nonlinear_arith);
    assert((x.e12 - u.e12) * y.e01 == x.e12 * y.e01 - u.e12 * y.e01) by (nonlinear_arith);
    assert((x.e13 - u.e13) * y.e0123 == x.e13 * y.e0123 - u.e13 * y.e0123) by (nonlinear_arith);
    assert((x.e23 - u.e23) * y.e03 == x.e23 * y.e03 - u.e23 * y.e03) by (nonlinear_arith);
    assert((x.e01 - u.e01) * y.e12 == x.e01 * y.e12 - u.e01 * y.e12) by (nonlinear_arith);
    assert((x.e02 - u.e02) * y.s == x.e02 * y.s - u.e02 * y.s) by (nonlinear_arith);
    assert((x.e03 - u.e03) * y.e23 == x.e03 * y.e23 - u.e03 * y.e23) by (nonlinear_arith);
    assert((x.e0123 - u.e0123) * y.e13 == x.e0123 * y.e13 - u.e0123 * y.e13) by (nonlinear_arith);
    assert((x.s - u.s) * y.e03 == x.s * y.e03 - u.s * y.e03) by (nonlinear_arith);
    assert((x.e12 - u.e12) * y.e0123 == x.e12 * y.e0123 - u.e12 * y.e0123) by (nonlinear_arith);
    assert((x.e13 - u.e13) * y.e01 == x.e13 * y.e01 - u.e13 * y.e01) by (nonlinear_arith);
    assert((x.e23 - u.e23) * y.e02 == x.e23 * y.e02 - u.e23 * y.e02) by (nonlinear_arith);
    assert((x.e01 - u.e01) * y.e13 == x.e01 * y.e13 - u.e01 * y.e13) by (nonlinear_arith);
    assert((x.e02 - u.e02) * y.e23 == x.e02 * y.e23 - u.e02 * y.e23) by (nonlinear_arith);
    assert((x.e03 - u.e03) * y.s == x.e03 * y.s - u.e03 * y.s) by (nonlinear_arith);
    assert((x.e0123 - u.e0123) * y.e12 == x.e0123 * y.e12 - u.e0123 * y.e12) by (nonlinear_arith);
    assert((x.s - u.s) * y.e0123 == x.s * y.e0123 - u.s * y.e0123) by (nonlinear_arith);
    assert((x.e12 - u.e12) * y.e03 == x.e12 * y.e03 - u.e12 * y.e03) by (nonlinear_arith);
    assert((x.e13 - u.e13) * y.e02 == x.e13 * y.e02 - u.e13 * y.e02) by (nonlinear_arith);
    assert((x.e23 - u.e23) * y.e01 == x.e23 * y.e01 - u.e23 * y.e01) by (nonlinear_arith);
    assert((x.e01 - u.e01) * y.e23 == x.e01 * y.e23 - u.e01 * y.e23) by (nonlinear_arith);
    assert((x.e02 - u.e02) * y.e13 == x.e02 * y.e13 - u.e02 * y.e13) by (nonlinear_arith);
    assert((x.e03 - u.e03) * y.e12 == x.e03 * y.e12 - u.e03 * y.e12) by (nonlinear_arith);
    assert((x.e0123 - u.e0123) * y.s == x.e0123 * y.s - u.e0123 * y.s) by (nonlinear_arith);
}

/// The exact product is linear in its right factor.
proof fn lemma_exact_apply_sub_right(x: MotorV, y: MotorV, u: MotorV)
    ensures
        exact_apply(x, motor_sub(y, u)) == motor_sub(exact_apply(x, y), exact_apply(x, u)),
{
    assert(x.s * (y.s - u.s) == x.s * y.s - x.s * u.s) by (nonlinear_arith);
    assert(x.e12 * (y.e12 - u.e12) == x.e12 * y.e12 - x.e12 * u.e12) by (nonlinear_arith);
    assert(x.e13 * (y.e13 - u.e13) == x.e13 * y.e13 - x.e13 * u.e13) by (nonlinear_arith);
    assert(x.e23 * (y.e23 - u.e23) == x.e23 * y.e23 - x.e23 * u.e23) by (nonlinear_arith);
    assert(x.s * (y.e12 - u.e12) == x.s * y.e12 - x.s * u.e12) by (nonlinear_arith);
    assert(x.e12 * (y.s - u.s) == x.e12 * y.s - x.e12 * u.s) by (nonlinear_arith);
    assert(x.e13 * (y.e23 - u.e23) == x.e13 * y.e23 - x.e13 * u.e23) by (nonlinear_arith);
    assert(x.e23 * (y.e13 - u.e13) == x.e23 * y.e13 - x.e23 * u.e13) by (nonlinear_arith);
    assert(x.s * (y.e13 - u.e13) == x.s * y.e13 - x.s * u.e13) by (nonlinear_arith);
    assert(x.e12 * (y.e23 - u.e23) == x.e12 * y.e23 - x.e12 * u.e23) by (nonlinear_arith);
    assert(x.e13 * (y.s - u.s) == x.e13 * y.s - x.e13 * u.s) by (nonlinear_arith);
    assert(x.e23 * (y.e12 - u.e12) == x.e23 * y.e12 - x.e23 * u.e12) by (nonlinear_arith);
    assert(x.s * (y.e23 - u.e23) == x.s * y.e23 - x.s * u.e23) by (nonlinear_arith);
    assert(x.e12 * (y.e13 - u.e13) == x.e12 * y.e13 - x.e12 * u.e13) by (nonlinear_arith);
    assert(x.e13 * (y.e12 - u.e12) == x.e13 * y.e12 - x.e13 * u.e12) by (nonlinear_arith);
    assert(x.e23 * (y.s - u.s) == x.e23 * y.s - x.e23 * u.s) by (nonlinear_arith);
    assert(x.s * (y.e01 - u.e01) == x.s * y.e01 - x.s * u.e01) by (nonlinear_arith);
    assert(x.e12 * (y.e02 - u.e02) == x.e12 * y.e02 - x.e12 * u.e02) by (nonlinear_arith);
    assert(x.e13 * (y.e03 - u.e03) == x.e13 * y.e03 - x.e13 * u.e03) by (nonlinear_arith);
    assert(x.e23 * (y.e0123 - u.e0123) == x.e23 * y.e0123 - x.e23 * u.e0123) by (nonlinear_arith);
    assert(x.e01 * (y.s - u.s) == x.e01 * y.s - x.e01 * u.s) by (nonlinear_arith);
    assert(x.e02 * (y.e12 - u.e12) == x.e02 * y.e12 - x.e02 * u.e12) by (nonlinear_arith);
    assert(x.e03 * (y.e13 - u.e13) == x.e03 * y.e13 - x.e03 * u.e13) by (nonlinear_arith);
    assert(x.e0123 * (y.e23 - u.e23) == x.e0123 * y.e23 - x.e0123 * u.e23) by (nonlinear_arith);
    assert(x.s * (y.e02 - u.e02) == x.s * y.e02 - x.s * u.e02) by (nonlinear_arith);
    assert(x.e12 * (y.e01 - u.e01) == x.e12 * y.e01 - x.e12 * u.e01) by (nonlinear_arith);
    assert(x.e13 * (y.e0123 - u.e0123) == x.e13 * y.e0123 - x.e13 * u.e0123) by (nonlinear_arith);
    assert(x.e23 * (y.e03 - u.e03) == x.e23 * y.e03 - x.e23 * u.e03) by (nonlinear_arith);
    assert(x.e01 * (y.e12 - u.e12) == x.e01 * y.e12 - x.e01 * u.e12) by (nonlinear_arith);
    assert(x.e02 * (y.s - u.s) == x.e02 * y.s - x.e02 * u.s) by (nonlinear_arith);
    assert(x.e03 * (y.e23 - u.e23) == x.e03 * y.e23 - x.e03 * u.e23) by (nonlinear_arith);
    assert(x.e0123 * (y.e13 - u.e13) == x.e0123 * y.e13 - x.e0123 * u.e13) by (nonlinear_arith);
    assert(x.s * (y.e03 - u.e03) == x.s * y.e03 - x.s * u.e03) by (nonlinear_arith);
    assert(x.e12 * (y.e0123 - u.e0123) == x.e12 * y.e0123 - x.e12 * u.e0123) by (nonlinear_arith);
    assert(x.e13 * (y.e01 - u.e01) == x.e13 * y.e01 - x.e13 * u.e01) by (nonlinear_arith);
    assert(x.e23 * (y.e02 - u.e02) == x.e23 * y.e02 - x.e23 * u.e02) by (nonlinear_arith);
    assert(x.e01 * (y.e13 - u.e13) == x.e01 * y.e13 - x.e01 * u.e13) by (nonlinear_arith);
    assert(x.e02 * (y.e23 - u.e23) == x.e02 * y.e23 - x.e02 * u.e23) by (nonlinear_arith);
    assert(x.e03 * (y.s - u.s) == x.e03 * y.s - x.e03 * u.s) by (nonlinear_arith);
    assert(x.e0123 * (y.e12 - u.e12) == x.e0123 * y.e12 - x.e0123 * u.e12) by (nonlinear_arith);
    assert(x.s * (y.e0123 - u.e0123) == x.s * y.e0123 - x.s * u.e0123) by (nonlinear_arith);
    assert(x.e12 * (y.e03 - u.e03) == x.e12 * y.e03 - x.e12 * u.e03) by (nonlinear_arith);
    assert(x.e13 * (y.e02 - u.e02) == x.e13 * y.e02 - x.e13 * u.e02) by (nonlinear_arith);
    assert(x.e23 * (y.e01 - u.e01) == x.e23 * y.e01 - x.e23 * u.e01) by (nonlinear_arith);
    assert(x.e01 * (y.e23 - u.e23) == x.e01 * y.e23 - x.e01 * u.e23) by (nonlinear_arith);
    assert(x.e02 * (y.e13 - u.e13) == x.e02 * y.e13 - x.e02 * u.e13) by (nonlinear_arith);
    assert(x.e03 * (y.e12 - u.e12) == x.e03 * y.e12 - x.e03 * u.e12) by (nonlinear_arith);
    assert(x.e0123 * (y.s - u.s) == x.e0123 * y.s - x.e0123 * u.s) by (nonlinear_arith);
}

/// The exact product is homogeneous in its left factor.
proof fn lemma_exact_apply_scale_left(x: MotorV, y: MotorV, k: int)
    ensures
        exact_apply(exact_scale(x, k), y) == exact_scale(exact_apply(x, y), k),
{
    assert((x.s * y.s - x.e12 * y.e12 - x.e13 * y.e13 - x.e23 * y.e23) * k == (x.s * y.s) * k - (x.e12 * y.e12) * k - (x.e13 * y.e13) * k - (x.e23 * y.e23) * k) by (nonlinear_arith);
    assert((x.s * y.e12 + x.e12 * y.s - x.e13 * y.e23 + x.e23 * y.e13) * k == (x.s * y.e12) * k + (x.e12 * y.s) * k - (x.e13 * y.e23) * k + (x.e23 * y.e13) * k) by (nonlinear_arith);
    assert((x.s * y.e13 + x.e12 * y.e23 + x.e13 * y.s - x.e23 * y.e12) * k == (x.s * y.e13) * k + (x.e12 * y.e23) * k + (x.e13 * y.s) * k - (x.e23 * y.e12) * k) by (nonlinear_arith);
    assert((x.s * y.e23 - x.e12 * y.e13 + x.e13 * y.e12 + x.e23 * y.s) * k == (x.s * y.e23) * k - (x.e12 * y.e13) * k + (x.e13 * y.e12) * k + (x.e23 * y.s) * k) by (nonlinear_arith);
    assert((x.s * y.e01 + x.e12 * y.e02 + x.e13 * y.e03 - x.e23 * y.e0123 + x.e01 * y.s - x.e02 * y.e12 - x.e03 * y.e13 - x.e0123 * y.e23) * k == (x.s * y.e01) * k + (x.e12 * y.e02) * k + (x.e13 * y.e03) * k - (x.e23 * y.e0123) * k + (x.e01 * y.s) * k - (x.e02 * y.e12) * k - (x.e03 * y.e13) * k - (x.e0123 * y.e23) * k) by (nonlinear_arith);
    assert((x.s * y.e02 - x.e12 * y.e01 + x.e13 * y.e0123 + x.e23 * y.e03 + x.e01 * y.e12 + x.e02 * y.s - x.e03 * y.e23 + x.e0123 * y.e13) * k == (x.s * y.e02) * k - (x.e12 * y.e01) * k + (x.e13 * y.e0123) * k + (x.e23 * y.e03) * k + (x.e01 * y.e12) * k + (x.e02 * y.s) * k - (x.e03 * y.e23) * k + (x.e0123 * y.e13) * k) by (nonlinear_arith);
    assert((x.s * y.e03 - x.e12 * y.e0123 - x.e13 * y.e01 - x.e23 * y.e02 + x.e01 * y.e13 + x.e02 * y.e23 + x.e03 * y.s - x.e0123 * y.e12) * k == (x.s * y.e03) * k - (x.e12 * y.e0123) * k - (x.e13 * y.e01) * k - (x.e23 * y.e02) * k + (x.e01 * y.e13) * k + (x.e02 * y.e23) * k + (x.e03 * y.s) * k - (x.e0123 * y.e12) * k) by (nonlinear_arith);
    assert((x.s * y.e0123 + x.e12 * y.e03 - x.e13 * y.e02 + x.e23 * y.e01 + x.e01 * y.e23 - x.e02 * y.e13 + x.e03 * y.e12 + x.e0123 * y.s) * k == (x.s * y.e0123) * k + (x.e12 * y.e03) * k - (x.e13 * y.e02) * k + (x.e23 * y.e01) * k + (x.e01 * y.e23) * k - (x.e02 * y.e13) * k + (x.e03 * y.e12) * k + (x.e0123 * y.s) * k) by (nonlinear_arith);
    assert((x.s * k) * y.s == (x.s * y.s) * k) by (nonlinear_arith);
    assert((x.e12 * k) * y.e12 == (x.e12 * y.e12) * k) by (nonlinear_arith);
    assert((x.e13 * k) * y.e13 == (x.e13 * y.e13) * k) by (nonlinear_arith);
    assert((x.e23 * k) * y.e23 == (x.e23 * y.e23) * k) by (nonlinear_arith);
    assert((x.s * k) * y.e12 == (x.s * y.e12) * k) by (nonlinear_arith);
    assert((x.e12 * k) * y.s == (x.e12 * y.s) * k) by (nonlinear_arith);
    assert((x.e13 * k) * y.e23 == (x.e13 * y.e23) * k) by (nonlinear_arith);
    assert((x.e23 * k) * y.e13 == (x.e23 * y.e13) * k) by (nonlinear_arith);
    assert((x.s * k) * y.e13 == (x.s * y.e13) * k) by (nonlinear_arith);
    assert((x.e12 * k) * y.e23 == (x.e12 * y.e23) * k) by (nonlinear_arith);
    assert((x.e13 * k) * y.s == (x.e13 * y.s) * k) by (nonlinear_arith);
    assert((x.e23 * k) * y.e12 == (x.e23 * y.e12) * k) by (nonlinear_arith);
    assert((x.s * k) * y.e23 == (x.s * y.e23) * k) by (nonlinear_arith);
    assert((x.e12 * k) * y.e13 == (x.e12 * y.e13) * k) by (nonlinear_arith);
    assert((x.e13 * k) * y.e12 == (x.e13 * y.e12) * k) by (nonlinear_arith);
    assert((x.e23 * k) * y.s == (x.e23 * y.s) * k) by (nonlinear_arith);
    assert((x.s * k) * y.e01 == (x.s * y.e01) * k) by (nonlinear_arith);
    assert((x.e12 * k) * y.e02 == (x.e12 * y.e02) * k) by (nonlinear_arith);
    assert((x.e13 * k) * y.e03 == (x.e13 * y.e03) * k) by (nonlinear_arith);
    assert((x.e23 * k) * y.e0123 == (x.e23 * y.e0123) * k) by (nonlinear_arith);
    assert((x.e01 * k) * y.s == (x.e01 * y.s) * k) by (nonlinear_arith);
    assert((x.e02 * k) * y.e12 == (x.e02 * y.e12) * k) by (nonlinear_arith);
    assert((x.e03 * k) * y.e13 == (x.e03 * y.e13) * k) by (nonlinear_arith);
    assert((x.e0123 * k) * y.e23 == (x.e0123 * y.e23) * k) by (nonlinear_arith);
    assert((x.s * k) * y.e02 == (x.s * y.e02) * k) by (nonlinear_arith);
    assert((x.e12 * k) * y.e01 == (x.e12 * y.e01) * k) by (nonlinear_arith);
    assert((x.e13 * k) * y.e0123 == (x.e13 * y.e0123) * k) by (nonlinear_arith);
    assert((x.e23 * k) * y.e03 == (x.e23 * y.e03) * k) by (nonlinear_arith);
    assert((x.e01 * k) * y.e12 == (x.e01 * y.e12) * k) by (nonlinear_arith);
    assert((x.e02 * k) * y.s == (x.e02 * y.s) * k) by (nonlinear_arith);
    assert((x.e03 * k) * y.e23 == (x.e03 * y.e23) * k) by (nonlinear_arith);
    assert((x.e0123 * k) * y.e13 == (x.e0123 * y.e13) * k) by (nonlinear_arith);
    assert((x.s * k) * y.e03 == (x.s * y.e03) * k) by (nonlinear_arith);
    assert((x.e12 * k) * y.e0123 == (x.e12 * y.e0123) * k) by (nonlinear_arith);
    assert((x.e13 * k) * y.e01 == (x.e13 * y.e01) * k) by (nonlinear_arith);
    assert((x.e23 * k) * y.e02 == (x.e23 * y.e02) * k) by (nonlinear_arith);
    assert((x.e01 * k) * y.e13 == (x.e01 * y.e13) * k) by (nonlinear_arith);
    assert((x.e02 * k) * y.e23 == (x.e02 * y.e23) * k) by (nonlinear_arith);
    assert((x.e03 * k) * y.s == (x.e03 * y.s) * k) by (nonlinear_arith);
    assert((x.e0123 * k) * y.e12 == (x.e0123 * y.e12) * k) by (nonlinear_arith);
    assert((x.s * k) * y.e0123 == (x.s * y.e0123) * k) by (nonlinear_arith);
    assert((x.e12 * k) * y.e03 == (x.e12 * y.e03) * k) by (nonlinear_arith);
    assert((x.e13 * k) * y.e02 == (x.e13 * y.e02) * k) by (nonlinear_arith);
    assert((x.e23 * k) * y.e01 == (x.e23 * y.e01) * k) by (nonlinear_arith);
    assert((x.e01 * k) * y.e23 == (x.e01 * y.e23) * k) by (nonlinear_arith);
    assert((x.e02 * k) * y.e13 == (x.e02 * y.e13) * k) by (nonlinear_arith);
    assert((x.e03 * k) * y.e12 == (x.e03 * y.e12) * k) by (nonlinear_arith);
    assert((x.e0123 * k) * y.s == (x.e0123 * y.s) * k) by (nonlinear_arith);
}

/// The exact product is homogeneous in its right factor.
proof fn lemma_exact_apply_scale_right(x: MotorV, y: MotorV, k: int)
    ensures
        exact_apply(x, exact_scale(y, k)) == exact_scale(exact_apply(x, y), k),
{
    assert((x.s * y.s - x.e12 * y.e12 - x.e13 * y.e13 - x.e23 * y.e23) * k == (x.s * y.s) * k - (x.e12 * y.e12) * k - (x.e13 * y.e13) * k - (x.e23 * y.e23) * k) by (nonlinear_arith);
    assert((x.s * y.e12 + x.e12 * y.s - x.e13 * y.e23 + x.e23 * y.e13) * k == (x.s * y.e12) * k + (x.e12 * y.s) * k - (x.e13 * y.e23) * k + (x.e23 * y.e13) * k) by (nonlinear_arith);
    assert((x.s * y.e13 + x.e12 * y.e23 + x.e13 * y.s - x.e23 * y.e12) * k == (x.s * y.e13) * k + (x.e12 * y.e23) * k + (x.e13 * y.s) * k - (x.e23 * y.e12) * k) by (nonlinear_arith);
    assert((x.s * y.e23 - x.e12 * y.e13 + x.e13 * y.e12 + x.e23 * y.s) * k == (x.s * y.e23) * k - (x.e12 * y.e13) * k + (x.e13 * y.e12) * k + (x.e23 * y.s) * k) by (nonlinear_arith);
    assert((x.s * y.e01 + x.e12 * y.e02 + x.e13 * y.e03 - x.e23 * y.e0123 + x.e01 * y.s - x.e02 * y.e12 - x.e03 * y.e13 - x.e0123 * y.e23) * k == (x.s * y.e01) * k + (x.e12 * y.e02) * k + (x.e13 * y.e03) * k - (x.e23 * y.e0123) * k + (x.e01 * y.s) * k - (x.e02 * y.e12) * k - (x.e03 * y.e13) * k - (x.e0123 * y.e23) * k) by (nonlinear_arith);
    assert((x.s * y.e02 - x.e12 * y.e01 + x.e13 * y.e0123 + x.e23 * y.e03 + x.e01 * y.e12 + x.e02 * y.s - x.e03 * y.e23 + x.e0123 * y.e13) * k == (x.s * y.e02) * k - (x.e12 * y.e01) * k + (x.e13 * y.e0123) * k + (x.e23 * y.e03) * k + (x.e01 * y.e12) * k + (x.e02 * y.s) * k - (x.e03 * y.e23) * k + (x.e0123 * y.e13) * k) by (nonlinear_arith);
    assert((x.s * y.e03 - x.e12 * y.e0123 - x.e13 * y.e01 - x.e23 * y.e02 + x.e01 * y.e13 + x.e02 * y.e23 + x.e03 * y.s - x.e0123 * y.e12) * k == (x.s * y.e03) * k - (x.e12 * y.e0123) * k - (x.e13 * y.e01) * k - (x.e23 * y.e02) * k + (x.e01 * y.e13) * k + (x.e02 * y.e23) * k + (x.e03 * y.s) * k - (x.e0123 * y.e12) * k) by (nonlinear_arith);
    assert((x.s * y.e0123 + x.e12 * y.e03 - x.e13 * y.e02 + x.e23 * y.e01 + x.e01 * y.e23 - x.e02 * y.e13 + x.e03 * y.e12 + x.e0123 * y.s) * k == (x.s * y.e0123) * k + (x.e12 * y.e03) * k - (x.e13 * y.e02) * k + (x.e23 * y.e01) * k + (x.e01 * y.e23) * k - (x.e02 * y.e13) * k + (x.e03 * y.e12) * k + (x.e0123 * y.s) * k) by (nonlinear_arith);
    assert(x.s * (y.s * k) == (x.s * y.s) * k) by (nonlinear_arith);
    assert(x.e12 * (y.e12 * k) == (x.e12 * y.e12) * k) by (nonlinear_arith);
    assert(x.e13 * (y.e13 * k) == (x.e13 * y.e13) * k) by (nonlinear_arith);
    assert(x.e23 * (y.e23 * k) == (x.e23 * y.e23) * k) by (nonlinear_arith);
    assert(x.s * (y.e12 * k) == (x.s * y.e12) * k) by (nonlinear_arith);
    assert(x.e12 * (y.s * k) == (x.e12 * y.s) * k) by (nonlinear_arith);
    assert(x.e13 * (y.e23 * k) == (x.e13 * y.e23) * k) by (nonlinear_arith);
    assert(x.e23 * (y.e13 * k) == (x.e23 * y.e13) * k) by (nonlinear_arith);
    assert(x.s * (y.e13 * k) == (x.s * y.e13) * k) by (nonlinear_arith);
    assert(x.e12 * (y.e23 * k) == (x.e12 * y.e23) * k) by (nonlinear_arith);
    assert(x.e13 * (y.s * k) == (x.e13 * y.s) * k) by (nonlinear_arith);
    assert(x.e23 * (y.e12 * k) == (x.e23 * y.e12) * k) by (nonlinear_arith);
    assert(x.s * (y.e23 * k) == (x.s * y.e23) * k) by (nonlinear_arith);
    assert(x.e12 * (y.e13 * k) == (x.e12 * y.e13) * k) by (nonlinear_arith);
    assert(x.e13 * (y.e12 * k) == (x.e13 * y.e12) * k) by (nonlinear_arith);
    assert(x.e23 * (y.s * k) == (x.e23 * y.s) * k) by (nonlinear_arith);
    assert(x.s * (y.e01 * k) == (x.s * y.e01) * k) by (nonlinear_arith);
    assert(x.e12 * (y.e02 * k) == (x.e12 * y.e02) * k) by (nonlinear_arith);
    assert(x.e13 * (y.e03 * k) == (x.e13 * y.e03) * k) by (nonlinear_arith);
    assert(x.e23 * (y.e0123 * k) == (x.e23 * y.e0123) * k) by (nonlinear_arith);
    assert(x.e01 * (y.s * k) == (x.e01 * y.s) * k) by (nonlinear_arith);
    assert(x.e02 * (y.e12 * k) == (x.e02 * y.e12) * k) by (nonlinear_arith);
    assert(x.e03 * (y.e13 * k) == (x.e03 * y.e13) * k) by (nonlinear_arith);
    assert(x.e0123 * (y.e23 * k) == (x.e0123 * y.e23) * k) by (nonlinear_arith);
    assert(x.s * (y.e02 * k) == (x.s * y.e02) * k) by (nonlinear_arith);
    assert(x.e12 * (y.e01 * k) == (x.e12 * y.e01) * k) by (nonlinear_arith);
    assert(x.e13 * (y.e0123 * k) == (x.e13 * y.e0123) * k) by (nonlinear_arith);
    assert(x.e23 * (y.e03 * k) == (x.e23 * y.e03) * k) by (nonlinear_arith);
    assert(x.e01 * (y.e12 * k) == (x.e01 * y.e12) * k) by (nonlinear_arith);
    assert(x.e02 * (y.s * k) == (x.e02 * y.s) * k) by (nonlinear_arith);
    assert(x.e03 * (y.e23 * k) == (x.e03 * y.e23) * k) by (nonlinear_arith);
    assert(x.e0123 * (y.e13 * k) == (x.e0123 * y.e13) * k) by (nonlinear_arith);
    assert(x.s * (y.e03 * k) == (x.s * y.e03) * k) by (nonlinear_arith);
    assert(x.e12 * (y.e0123 * k) == (x.e12 * y.e0123) * k) by (nonlinear_arith);
    assert(x.e13 * (y.e01 * k) == (x.e13 * y.e01) * k) by (nonlinear_arith);
    assert(x.e23 * (y.e02 * k) == (x.e23 * y.e02) * k) by (nonlinear_arith);
    assert(x.e01 * (y.e13 * k) == (x.e01 * y.e13) * k) by (nonlinear_arith);
    assert(x.e02 * (y.e23 * k) == (x.e02 * y.e23) * k) by (nonlinear_arith);
    assert(x.e03 * (y.s * k) == (x.e03 * y.s) * k) by (nonlinear_arith);
    assert(x.e0123 * (y.e12 * k) == (x.e0123 * y.e12) * k) by (nonlinear_arith);
    assert(x.s * (y.e0123 * k) == (x.s * y.e0123) * k) by (nonlinear_arith);
    assert(x.e12 * (y.e03 * k) == (x.e12 * y.e03) * k) by (nonlinear_arith);
    assert(x.e13 * (y.e02 * k) == (x.e13 * y.e02) * k) by (nonlinear_arith);
    assert(x.e23 * (y.e01 * k) == (x.e23 * y.e01) * k) by (nonlinear_arith);
    assert(x.e01 * (y.e23 * k) == (x.e01 * y.e23) * k) by (nonlinear_arith);
    assert(x.e02 * (y.e13 * k) == (x.e02 * y.e13) * k) by (nonlinear_arith);
    assert(x.e03 * (y.e12 * k) == (x.e03 * y.e12) * k) by (nonlinear_arith);
    assert(x.e0123 * (y.s * k) == (x.e0123 * y.s) * k) by (nonlinear_arith);
}

/// Every component of the exact product of two bounded motor models is
/// bounded by eight times the product of the bounds.
proof fn lemma_exact_apply_bounded(x: MotorV, y: MotorV, bx: int, by: int)
    requires
        motor_bounded(x, bx),
        motor_bounded(y, by),
        0 <= bx,
        0 <= by,
    ensures
        motor_bounded(exact_apply(x, y), 8 * (bx * by)),
{
    assert(-(bx * by) <= x.s * y.s <= bx * by) by (nonlinear_arith)
        requires
            -bx <= x.s <= bx,
            -by <= y.s <= by,
            0 <= bx,
            0 <= by,
    ;
    assert(-(bx * by) <= x.e12 * y.e12 <= bx * by) by (nonlinear_arith)
        requires
            -bx <= x.e12 <= bx,
            -by <= y.e12 <= by,
            0 <= bx,
            0 <= by,
    ;
    assert(-(bx * by) <= x.e13 * y.e13 <= bx * by) by (nonlinear_arith)
        requires
            -bx <= x.e13 <= bx,
            -by <= y.e13 <= by,
            0 <= bx,
            0 <= by,
    ;
    assert(-(bx * by) <= x.e23 * y.e23 <= bx * by) by (nonlinear_arith)
        requires
            -bx <= x.e23 <= bx,
            -by <= y.e23 <= by,
            0 <= bx,
            0 <= by,
    ;
    assert(-(bx * by) <= x.s * y.e12 <= bx * by) by (nonlinear_arith)
        requires
            -bx <= x.s <= bx,
            -by <= y.e12 <= by,
            0 <= bx,
            0 <= by,
    ;
    assert(-(bx * by) <= x.e12 * y.s <= bx * by) by (nonlinear_arith)
        requires
            -bx <= x.e12 <= bx,
            -by <= y.s <= by,
            0 <= bx,
            0 <= by,
    ;
    assert(-(bx * by) <= x.e13 * y.e23 <= bx * by) by (nonlinear_arith)
        requires
            -bx <= x.e13 <= bx,
            -by <= y.e23 <= by,
            0 <= bx,
            0 <= by,
    ;
    assert(-(bx * by) <= x.e23 * y.e13 <= bx * by) by (nonlinear_arith)
        requires
            -bx <= x.e23 <= bx,
            -by <= y.e13 <= by,
            0 <= bx,
            0 <= by,
    ;
    assert(-(bx * by) <= x.s * y.e13 <= bx * by) by (nonlinear_arith)
        requires
            -bx <= x.s <= bx,
            -by <= y.e13 <= by,
            0 <= bx,
            0 <= by,
    ;
    assert(-(bx * by) <= x.e12 * y.e23 <= bx * by) by (nonlinear_arith)
        requires
            -bx <= x.e12 <= bx,
            -by <= y.e23 <= by,
            0 <= bx,
            0 <= by,
    ;
    assert(-(bx * by) <= x.e13 * y.s <= bx * by) by (nonlinear_arith)
        requires
            -bx <= x.e13 <= bx,
            -by <= y.s <= by,
            0 <= bx,
            0 <= by,
    ;
    assert(-(bx * by) <= x.e23 * y.e12 <= bx * by) by (nonlinear_arith)
        requires
            -bx <= x.e23 <= bx,
            -by <= y.e12 <= by,
            0 <= bx,
            0 <= by,
    ;
    assert(-(bx * by) <= x.s * y.e23 <= bx * by) by (nonlinear_arith)
        requires
            -bx <= x.s <= bx,
            -by <= y.e23 <= by,
            0 <= bx,
            0 <= by,
    ;
    assert(-(bx * by) <= x.e12 * y.e13 <= bx * by) by (nonlinear_arith)
        requires
            -bx <= x.e12 <= bx,
            -by <= y.e13 <= by,
            0 <= bx,
            0 <= by,
    ;
    assert(-(bx * by) <= x.e13 * y.e12 <= bx * by) by (nonlinear_arith)
        requires
            -bx <= x.e13 <= bx,
            -by <= y.e12 <= by,
            0 <= bx,
            0 <= by,
    ;
    assert(-(bx * by) <= x.e23 * y.s <= bx * by) by (nonlinear_arith)
        requires
            -bx <= x.e23 <= bx,
            -by <= y.s <= by,
            0 <= bx,
            0 <= by,
    ;
    assert(-(bx * by) <= x.s * y.e01 <= bx * by) by (nonlinear_arith)
        requires
            -bx <= x.s <= bx,
            -by <= y.e01 <= by,
            0 <= bx,
            0 <= by,
    ;
    assert(-(bx * by) <= x.e12 * y.e02 <= bx * by) by (nonlinear_arith)
        requires
            -bx <= x.e12 <= bx,
            -by <= y.e02 <= by,
            0 <= bx,
            0 <= by,
    ;
    assert(-(bx * by) <= x.e13 * y.e03 <= bx * by) by (nonlinear_arith)
        requires
            -bx <= x.e13 <= bx,
            -by <= y.e03 <= by,
            0 <= bx,
            0 <= by,
    ;
    assert(-(bx * by) <= x.e23 * y.e0123 <= bx * by) by (nonlinear_arith)
        requires
            -bx <= x.e23 <= bx,
            -by <= y.e0123 <= by,
            0 <= bx,
            0 <= by,
    ;
    assert(-(bx * by) <= x.e01 * y.s <= bx * by) by (nonlinear_arith)
        requires
            -bx <= x.e01 <= bx,
            -by <= y.s <= by,
            0 <= bx,
            0 <= by,
    ;
    assert(-(bx * by) <= x.e02 * y.e12 <= bx * by) by (nonlinear_arith)
        requires
            -bx <= x.e02 <= bx,
            -by <= y.e12 <= by,
            0 <= bx,
            0 <= by,
    ;
    assert(-(bx * by) <= x.e03 * y.e13 <= bx * by) by (nonlinear_arith)
        requires
            -bx <= x.e03 <= bx,
            -by <= y.e13 <= by,
            0 <= bx,
            0 <= by,
    ;
    assert(-(bx * by) <= x.e0123 * y.e23 <= bx * by) by (nonlinear_arith)
        requires
            -bx <= x.e0123 <= bx,
            -by <= y.e23 <= by,
            0 <= bx,
            0 <= by,
    ;
    assert(-(bx * by) <= x.s * y.e02 <= bx * by) by (nonlinear_arith)
        requires
            -bx <= x.s <= bx,
            -by <= y.e02 <= by,
            0 <= bx,
            0 <= by,
    ;
    assert(-(bx * by) <= x.e12 * y.e01 <= bx * by) by (nonlinear_arith)
        requires
            -bx <= x.e12 <= bx,
            -by <= y.e01 <= by,
            0 <= bx,
            0 <= by,
    ;
    assert(-(bx * by) <= x.e13 * y.e0123 <= bx * by) by (nonlinear_arith)
        requires
            -bx <= x.e13 <= bx,
            -by <= y.e0123 <= by,
            0 <= bx,
            0 <= by,
    ;
    assert(-(bx * by) <= x.e23 * y.e03 <= bx * by) by (nonlinear_arith)
        requires
            -bx <= x.e23 <= bx,
            -by <= y.e03 <= by,
            0 <= bx,
            0 <= by,
    ;
    assert(-(bx * by) <= x.e01 * y.e12 <= bx * by) by (nonlinear_arith)
        requires
            -bx <= x.e01 <= bx,
            -by <= y.e12 <= by,
            0 <= bx,
            0 <= by,
    ;
    assert(-(bx * by) <= x.e02 * y.s <= bx * by) by (nonlinear_arith)
        requires
            -bx <= x.e02 <= bx,
            -by <= y.s <= by,
            0 <= bx,
            0 <= by,
    ;
    assert(-(bx * by) <= x.e03 * y.e23 <= bx * by) by (nonlinear_arith)
        requires
            -bx <= x.e03 <= bx,
            -by <= y.e23 <= by,
            0 <= bx,
            0 <= by,
    ;
    assert(-(bx * by) <= x.e0123 * y.e13 <= bx * by) by (nonlinear_arith)
        requires
            -bx <= x.e0123 <= bx,
            -by <= y.e13 <= by,
            0 <= bx,
            0 <= by,
    ;
    assert(-(bx * by) <= x.s * y.e03 <= bx * by) by (nonlinear_arith)
        requires
            -bx <= x.s <= bx,
            -by <= y.e03 <= by,
            0 <= bx,
            0 <= by,
    ;
    assert(-(bx * by) <= x.e12 * y.e0123 <= bx * by) by (nonlinear_arith)
        requires
            -bx <= x.e12 <= bx,
            -by <= y.e0123 <= by,
            0 <= bx,
            0 <= by,
    ;
    assert(-(bx * by) <= x.e13 * y.e01 <= bx * by) by (nonlinear_arith)
        requires
            -bx <= x.e13 <= bx,
            -by <= y.e01 <= by,
            0 <= bx,
            0 <= by,
    ;
    assert(-(bx * by) <= x.e23 * y.e02 <= bx * by) by (nonlinear_arith)
        requires
            -bx <= x.e23 <= bx,
            -by <= y.e02 <= by,
            0 <= bx,
            0 <= by,
    ;
    assert(-(bx * by) <= x.e01 * y.e13 <= bx * by) by (nonlinear_arith)
        requires
            -bx <= x.e01 <= bx,
            -by <= y.e13 <= by,
            0 <= bx,
            0 <= by,
    ;
    assert(-(bx * by) <= x.e02 * y.e23 <= bx * by) by (nonlinear_arith)
        requires
            -bx <= x.e02 <= bx,
            -by <= y.e23 <= by,
            0 <= bx,
            0 <= by,
    ;
    assert(-(bx * by) <= x.e03 * y.s <= bx * by) by (nonlinear_arith)
        requires
            -bx <= x.e03 <= bx,
            -by <= y.s <= by,
            0 <= bx,
            0 <= by,
    ;
    assert(-(bx * by) <= x.e0123 * y.e12 <= bx * by) by (nonlinear_arith)
        requires
            -bx <= x.e0123 <= bx,
            -by <= y.e12 <= by,
            0 <= bx,
            0 <= by,
    ;
    assert(-(bx * by) <= x.s * y.e0123 <= bx * by) by (nonlinear_arith)
        requires
            -bx <= x.s <= bx,
            -by <= y.e0123 <= by,
            0 <= bx,
            0 <= by,
    ;
    assert(-(bx * by) <= x.e12 * y.e03 <= bx * by) by (nonlinear_arith)
        requires
            -bx <= x.e12 <= bx,
            -by <= y.e03 <= by,
            0 <= bx,
            0 <= by,
    ;
    assert(-(bx * by) <= x.e13 * y.e02 <= bx * by) by (nonlinear_arith)
        requires
            -bx <= x.e13 <= bx,
            -by <= y.e02 <= by,
            0 <= bx,
            0 <= by,
    ;
    assert(-(bx * by) <= x.e23 * y.e01 <= bx * by) by (nonlinear_arith)
        requires
            -bx <= x.e23 <= bx,
            -by <= y.e01 <= by,
            0 <= bx,
            0 <= by,
    ;
    assert(-(bx * by) <= x.e01 * y.e23 <= bx * by) by (nonlinear_arith)
        requires
            -bx <= x.e01 <= bx,
            -by <= y.e23 <= by,
            0 <= bx,
            0 <= by,
    ;
    assert(-(bx * by) <= x.e02 * y.e13 <= bx * by) by (nonlinear_arith)
        requires
            -bx <= x.e02 <= bx,
            -by <= y.e13 <= by,
            0 <= bx,
            0 <= by,
    ;
    assert(-(bx * by) <= x.e03 * y.e12 <= bx * by) by (nonlinear_arith)
        requires
            -bx <= x.e03 <= bx,
            -by <= y.e12 <= by,
            0 <= bx,
            0 <= by,
    ;
    assert(-(bx * by) <= x.e0123 * y.s <= bx * by) by (nonlinear_arith)
        requires
            -bx <= x.e0123 <= bx,
            -by <= y.s <= by,
            0 <= bx,
            0 <= by,
    ;
}

/// Associativity of the computed composition: for three motors whose
/// components are bounded by `b`, the two ways of composing them in the
/// truncated fixed-point model agree in every component once each side is
/// rescaled by the square of the scale factor, to within eight scale units
/// from the two outer roundings plus `128 b` units from carrying the inner
/// rounding through the bilinear form.
pub proof fn lemma_apply_assoc_computed(x: MotorV, y: MotorV, z: MotorV, b: int)
    requires
        0 <= b,
        motor_bounded(x, b),
        motor_bounded(y, b),
        motor_bounded(z, b),
    ensures
        motor_bounded(
            exact_scale(
                motor_sub(spec_apply(spec_apply(x, y), z), spec_apply(x, spec_apply(y, z))),
                (FRAC_SCALE as int) * (FRAC_SCALE as int),
            ),
            8 * ((FRAC_SCALE as int) * (FRAC_SCALE as int)) + 128 * ((FRAC_SCALE as int) * b),
        ),
{
    let f = FRAC_SCALE as int;
    let s1 = spec_apply(x, y);
    let e1 = exact_apply(x, y);
    let s2 = spec_apply(y, z);
    let e2 = exact_apply(y, z);
    lemma_apply_rounding(x, y);
    lemma_apply_rounding(y, z);
    lemma_apply_rounding(s1, z);
    lemma_apply_rounding(x, s2);
    lemma_apply_assoc(x, y, z);
    let d1 = motor_sub(exact_scale(s1, f), e1);
    let d2 = motor_sub(exact_scale(s2, f), e2);
    assert(motor_bounded(d1, 8 * f));
    assert(motor_bounded(d2, 8 * f));
    lemma_exact_apply_scale_left(s1, z, f);
    lemma_exact_apply_sub_left(exact_scale(s1, f), e1, z);
    lemma_exact_apply_bounded(d1, z, 8 * f, b);
    lemma_exact_apply_scale_right(x, s2, f);
    lemma_exact_apply_sub_right(x, exact_scale(s2, f), e2);
    lemma_exact_apply_bounded(x, d2, b, 8 * f);
    assert(8 * ((8 * f) * b) == 64 * (f * b)) by (nonlinear_arith);
    assert(8 * (b * (8 * f)) == 64 * (f * b)) by (nonlinear_arith);
}

/// The same law for motors whose components lie within one, which every
/// rigid motion the constructors build or `normalized` returns satisfies in
/// practice: the two groupings agree within 136 bits, about `3 * 10^-8` in
/// represented value.
pub proof fn lemma_apply_assoc_near_unit(x: MotorV, y: MotorV, z: MotorV)
    requires
        motor_bounded(x, ONE_BITS as int),
        motor_bounded(y, ONE_BITS as int),
        motor_bounded(z, ONE_BITS as int),
    ensures
        motor_bounded(
            motor_sub(spec_apply(spec_apply(x, y), z), spec_apply(x, spec_apply(y, z))),
            136,
        ),
{
    lemma_apply_assoc_computed(x, y, z, ONE_BITS as int);
}



/// Normalization is stable near the unit norm: a motor whose computed
/// squared magnitude is within sixty-four bits of one — as every
/// constructor's output and every renormalized near-unit motor is — has a
/// computed magnitude within thirty-three bits of one, and renormalizing
/// it moves every component, rescaled by the scale factor, by at most
/// thirty-three times its component bound plus one scale unit:
/// renormalizing an already normalized motor is the identity up to a few
/// bits.
pub proof fn lemma_normalized_stable(u: MotorV, b: int)
    requires
        0 <= b,
        (ONE_BITS as int) - 64 <= spec_magnitude_squared(u) <= (ONE_BITS as int) + 64,
        motor_bounded(u, b),
    ensures
        (ONE_BITS as int) - 33 <= spec_magnitude(u) <= (ONE_BITS as int) + 31,
        motor_bounded(
            exact_scale(motor_sub(spec_normalized(u), u), FRAC_SCALE as int),
            33 * b + (FRAC_SCALE as int),
        ),
{
    let f = FRAC_SCALE as int;
    let one = ONE_BITS as int;
    let msq = spec_magnitude_squared(u);
    let n = msq * f;
    assert(n >= 0) by (nonlinear_arith)
        requires
            n == msq * f,
            msq >= 0,
            f == 4294967296,
    ;
    lemma_sqrt_exists(n);
    let m = choose|q: int| #[trigger] is_sqrt_floor(n, q);
    assert(spec_magnitude(u) == m) by {
        crate::number::lemma_sqrt_floor_unique(n, m, fx_sqrt(msq));
    }
    assert((one - 64) * f <= n <= (one + 64) * f) by (nonlinear_arith)
        requires
            n == msq * f,
            one - 64 <= msq <= one + 64,
            f == 4294967296,
    ;
    assert(m <= f + 31) by (nonlinear_arith)
        requires
            m >= 0,
            m * m <= n,
            n <= (one + 64) * f,
            one == f,
            f == 4294967296,
    ;
    assert(m >= f - 33) by (nonlinear_arith)
        requires
            m >= 0,
            n < (m + 1) * (m + 1),
            (one - 64) * f <= n,
            one == f,
            f == 4294967296,
    ;
    let r = fx_recip(m);
    assert(one * f == f * f);
    assert(r == (f * f) / m);
    lemma_div_is_ordered_by_denominator(f * f, f - 33, m);
    lemma_div_is_ordered_by_denominator(f * f, m, f + 31);
    assert((f * f) / (f - 33) == f + 33);
    assert((f * f) / (f + 31) == f - 31);
    assert(f - 31 <= r <= f + 33);
    lemma_fx_mul_floor(u.s, r);
    assert(-(33 * b) <= u.s * (r - f) <= 33 * b) by (nonlinear_arith)
        requires
            -b <= u.s <= b,
            -33 <= r - f <= 33,
            0 <= b,
    ;
    assert(u.s * r == u.s * f + u.s * (r - f)) by (nonlinear_arith);
    lemma_fx_mul_floor(u.e12, r);
    assert(-(33 * b) <= u.e12 * (r - f) <= 33 * b) by (nonlinear_arith)
        requires
            -b <= u.e12 <= b,
            -33 <= r - f <= 33,
            0 <= b,
    ;
    assert(u.e12 * r == u.e12 * f + u.e12 * (r - f)) by (nonlinear_arith);
    lemma_fx_mul_floor(u.e13, r);
    assert(-(33 * b) <= u.e13 * (r - f) <= 33 * b) by (nonlinear_arith)
        requires
            -b <= u.e13 <= b,
            -33 <= r - f <= 33,
            0 <= b,
    ;
    assert(u.e13 * r == u.e13 * f + u.e13 * (r - f)) by (nonlinear_arith);
    lemma_fx_mul_floor(u.e23, r);
    assert(-(33 * b) <= u.e23 * (r - f) <= 33 * b) by (nonlinear_arith)
        requires
            -b <= u.e23 <= b,
            -33 <= r - f <= 33,
            0 <= b,
    ;
    assert(u.e23 * r == u.e23 * f + u.e23 * (r - f)) by (nonlinear_arith);
    lemma_fx_mul_floor(u.e01, r);
    assert(-(33 * b) <= u.e01 * (r - f) <= 33 * b) by (nonlinear_arith)
        requires
            -b <= u.e01 <= b,
            -33 <= r - f <= 33,
            0 <= b,
    ;
    assert(u.e01 * r == u.e01 * f + u.e01 * (r - f)) by (nonlinear_arith);
    lemma_fx_mul_floor(u.e02, r);
    assert(-(33 * b) <= u.e02 * (r - f) <= 33 * b) by (nonlinear_arith)
        requires
            -b <= u.e02 <= b,
            -33 <= r - f <= 33,
            0 <= b,
    ;
    assert(u.e02 * r == u.e02 * f + u.e02 * (r - f)) by (nonlinear_arith);
    lemma_fx_mul_floor(u.e03, r);
    assert(-(33 * b) <= u.e03 * (r - f) <= 33 * b) by (nonlinear_arith)
        requires
            -b <= u.e03 <= b,
            -33 <= r - f <= 33,
            0 <= b,
    ;
    assert(u.e03 * r == u.e03 * f + u.e03 * (r - f)) by (nonlinear_arith);
    lemma_fx_mul_floor(u.e0123, r);
    assert(-(33 * b) <= u.e0123 * (r - f) <= 33 * b) by (nonlinear_arith)
        requires
            -b <= u.e0123 <= b,
            -33 <= r - f <= 33,
            0 <= b,
    ;
    assert(u.e0123 * r == u.e0123 * f + u.e0123 * (r - f)) by (nonlinear_arith);
}


/// Renormalizing keeps the squared magnitude pinned: a motor whose
/// computed squared magnitude is within sixty-four bits of one has a
/// renormalized image whose computed squared magnitude is within sixteen
/// bits of one.  Together with the stability lemma this closes the loop:
/// the output of `normalized` satisfies the hypothesis again, so a second
/// renormalization is the identity up to a few bits and its magnitude
/// stays within thirty-three bits of one.
#[verifier::rlimit(80)]
pub proof fn lemma_normalized_norm(t: MotorV)
    requires
        (ONE_BITS as int) - 64 <= spec_magnitude_squared(t) <= (ONE_BITS as int) + 64,
    ensures
        (ONE_BITS as int) - 16 <= spec_magnitude_squared(spec_normalized(t))
            <= (ONE_BITS as int) + 16,
{
    let f = FRAC_SCALE as int;
    let one = ONE_BITS as int;
    let msq = spec_magnitude_squared(t);
    let c0 = t.s;
    let c1 = t.e12;
    let c2 = t.e13;
    let c3 = t.e23;
    lemma_fx_mul_neg_neg(c1, c1);
    lemma_fx_mul_neg_neg(c2, c2);
    lemma_fx_mul_neg_neg(c3, c3);
    lemma_fx_mul_floor(c0, c0);
    crate::number::lemma_fx_square_nonneg(c0);
    lemma_fx_mul_floor(c1, c1);
    crate::number::lemma_fx_square_nonneg(c1);
    lemma_fx_mul_floor(c2, c2);
    crate::number::lemma_fx_square_nonneg(c2);
    lemma_fx_mul_floor(c3, c3);
    crate::number::lemma_fx_square_nonneg(c3);
    let norm2 = c0 * c0 + c1 * c1 + c2 * c2 + c3 * c3;
    let sigma = norm2 - f * msq;
    assert(0 <= sigma < 4 * f);
    let n = msq * f;
    assert(n >= 0 && (one - 64) * f <= n <= (one + 64) * f) by (nonlinear_arith)
        requires
            n == msq * f,
            one - 64 <= msq <= one + 64,
            one == 4294967296,
            f == 4294967296,
    ;
    lemma_sqrt_exists(n);
    let m = choose|q: int| #[trigger] is_sqrt_floor(n, q);
    assert(spec_magnitude(t) == m) by {
        crate::number::lemma_sqrt_floor_unique(n, m, fx_sqrt(msq));
    }
    assert(m <= f + 31) by (nonlinear_arith)
        requires
            m >= 0,
            m * m <= n,
            n <= (f + 64) * f,
            f == 4294967296,
    ;
    assert(m >= f - 33) by (nonlinear_arith)
        requires
            m >= 0,
            n < (m + 1) * (m + 1),
            (f - 64) * f <= n,
            f == 4294967296,
    ;
    let rho = n - m * m;
    assert(0 <= rho <= 2 * m) by (nonlinear_arith)
        requires
            m * m <= n,
            n < (m + 1) * (m + 1),
            rho == n - m * m,
    ;
    let r = fx_recip(m);
    assert(one * f == f * f);
    assert(r == (f * f) / m);
    lemma_div_is_ordered_by_denominator(f * f, f - 33, m);
    lemma_div_is_ordered_by_denominator(f * f, m, f + 31);
    assert((f * f) / (f - 33) == f + 33);
    assert((f * f) / (f + 31) == f - 31);
    assert(f - 31 <= r <= f + 33);
    let delta = f * f - r * m;
    lemma_fundamental_div_mod(f * f, m);
    lemma_mod_bound(f * f, m);
    assert(delta == (f * f) % m) by (nonlinear_arith)
        requires
            f * f == m * ((f * f) / m) + (f * f) % m,
            r == (f * f) / m,
            delta == f * f - r * m,
    ;
    assert(0 <= delta <= f + 31);
    assert(c0 * c0 < (f + 65) * f);
    assert(-(f + 32) <= c0 <= f + 32) by (nonlinear_arith)
        requires
            c0 * c0 < (f + 65) * f,
            f == 4294967296,
    ;
    assert(c1 * c1 < (f + 65) * f);
    assert(-(f + 32) <= c1 <= f + 32) by (nonlinear_arith)
        requires
            c1 * c1 < (f + 65) * f,
            f == 4294967296,
    ;
    assert(c2 * c2 < (f + 65) * f);
    assert(-(f + 32) <= c2 <= f + 32) by (nonlinear_arith)
        requires
            c2 * c2 < (f + 65) * f,
            f == 4294967296,
    ;
    assert(c3 * c3 < (f + 65) * f);
    assert(-(f + 32) <= c3 <= f + 32) by (nonlinear_arith)
        requires
            c3 * c3 < (f + 65) * f,
            f == 4294967296,
    ;
    let n0 = fx_mul(c0, r);
    lemma_fx_mul_floor(c0, r);
    let e0 = c0 * r - f * n0;
    assert(0 <= e0 < f);
    assert(-((f + 32) * f) <= c0 * e0 <= (f + 32) * f) by (nonlinear_arith)
        requires
            -(f + 32) <= c0 <= f + 32,
            0 <= e0 < f,
            f == 4294967296,
    ;
    assert(0 <= e0 * e0 < f * f) by (nonlinear_arith)
        requires
            0 <= e0 < f,
    ;
    assert((f * n0) * (f * n0) == (f * f) * (n0 * n0)) by (nonlinear_arith);
    assert((c0 * r - e0) * (c0 * r - e0) == (r * r) * (c0 * c0) - 2 * (r * (c0
        * e0)) + e0 * e0) by (nonlinear_arith);
    let n1 = fx_mul(c1, r);
    lemma_fx_mul_floor(c1, r);
    let e1 = c1 * r - f * n1;
    assert(0 <= e1 < f);
    assert(-((f + 32) * f) <= c1 * e1 <= (f + 32) * f) by (nonlinear_arith)
        requires
            -(f + 32) <= c1 <= f + 32,
            0 <= e1 < f,
            f == 4294967296,
    ;
    assert(0 <= e1 * e1 < f * f) by (nonlinear_arith)
        requires
            0 <= e1 < f,
    ;
    assert((f * n1) * (f * n1) == (f * f) * (n1 * n1)) by (nonlinear_arith);
    assert((c1 * r - e1) * (c1 * r - e1) == (r * r) * (c1 * c1) - 2 * (r * (c1
        * e1)) + e1 * e1) by (nonlinear_arith);
    let n2 = fx_mul(c2, r);
    lemma_fx_mul_floor(c2, r);
    let e2 = c2 * r - f * n2;
    assert(0 <= e2 < f);
    assert(-((f + 32) * f) <= c2 * e2 <= (f + 32) * f) by (nonlinear_arith)
        requires
            -(f + 32) <= c2 <= f + 32,
            0 <= e2 < f,
            f == 4294967296,
    ;
    assert(0 <= e2 * e2 < f * f) by (nonlinear_arith)
        requires
            0 <= e2 < f,
    ;
    assert((f * n2) * (f * n2) == (f * f) * (n2 * n2)) by (nonlinear_arith);
    assert((c2 * r - e2) * (c2 * r - e2) == (r * r) * (c2 * c2) - 2 * (r * (c2
        * e2)) + e2 * e2) by (nonlinear_arith);
    let n3 = fx_mul(c3, r);
    lemma_fx_mul_floor(c3, r);
    let e3 = c3 * r - f * n3;
    assert(0 <= e3 < f);
    assert(-((f + 32) * f) <= c3 * e3 <= (f + 32) * f) by (nonlinear_arith)
        requires
            -(f + 32) <= c3 <= f + 32,
            0 <= e3 < f,
            f == 4294967296,
    ;
    assert(0 <= e3 * e3 < f * f) by (nonlinear_arith)
        requires
            0 <= e3 < f,
    ;
    assert((f * n3) * (f * n3) == (f * f) * (n3 * n3)) by (nonlinear_arith);
    assert((c3 * r - e3) * (c3 * r - e3) == (r * r) * (c3 * c3) - 2 * (r * (c3
        * e3)) + e3 * e3) by (nonlinear_arith);
    let cross = c0 * e0 + c1 * e1 + c2 * e2 + c3 * e3;
    assert(-(4 * ((f + 32) * f)) <= cross <= 4 * ((f + 32) * f));
    assert(r * cross == r * (c0 * e0) + r * (c1 * e1) + r * (c2 * e2) + r * (c3 * e3))
        by (nonlinear_arith)
        requires
            cross == c0 * e0 + c1 * e1 + c2 * e2 + c3 * e3,
    ;
    assert(-((f + 33) * (4 * ((f + 32) * f))) <= r * cross <= (f + 33) * (4 * ((f + 32) * f)))
        by (nonlinear_arith)
        requires
            0 <= r <= f + 33,
            -(4 * ((f + 32) * f)) <= cross <= 4 * ((f + 32) * f),
            f == 4294967296,
    ;
    assert(0 <= r * r <= (f + 33) * (f + 33)) by (nonlinear_arith)
        requires
            0 <= r <= f + 33,
    ;
    assert(rho + sigma <= 6 * f + 62);
    assert((r * r) * (rho + sigma) == (r * r) * rho + (r * r) * sigma) by (nonlinear_arith);
    assert(0 <= (r * r) * rho && 0 <= (r * r) * sigma) by (nonlinear_arith)
        requires
            0 <= r * r,
            0 <= rho,
            0 <= sigma,
    ;
    assert(0 <= (r * r) * (rho + sigma) <= ((f + 33) * (f + 33)) * (6 * f + 62))
        by (nonlinear_arith)
        requires
            0 <= r * r <= (f + 33) * (f + 33),
            0 <= rho + sigma <= 6 * f + 62,
            f == 4294967296,
    ;
    assert((r * r) * (c0 * c0 + c1 * c1 + c2 * c2 + c3 * c3) == (r * r) * (c0 * c0) + (r * r)
        * (c1 * c1) + (r * r) * (c2 * c2) + (r * r) * (c3 * c3)) by (nonlinear_arith);
    assert((r * r) * norm2 == (r * r) * (f * msq) + (r * r) * sigma) by (nonlinear_arith)
        requires
            norm2 == f * msq + sigma,
    ;
    assert((r * r) * (f * msq) == (r * r) * (m * m) + (r * r) * rho) by (nonlinear_arith)
        requires
            f * msq == m * m + rho,
    ;
    assert(f * msq == m * m + rho) by (nonlinear_arith)
        requires
            n == msq * f,
            rho == n - m * m,
    ;
    assert((r * r) * (m * m) == (r * m) * (r * m)) by (nonlinear_arith);
    assert((r * m) * (r * m) == (f * f) * (f * f) - 2 * ((f * f) * delta) + delta * delta)
        by (nonlinear_arith)
        requires
            r * m == f * f - delta,
    ;
    assert(0 <= delta * delta <= (f + 31) * (f + 31)) by (nonlinear_arith)
        requires
            0 <= delta <= f + 31,
    ;
    assert((f * f) * (n0 * n0 + n1 * n1 + n2 * n2 + n3 * n3) == (f * f) * (n0 * n0) + (f * f)
        * (n1 * n1) + (f * f) * (n2 * n2) + (f * f) * (n3 * n3));
    assert((f * f) * (n0 * n0 + n1 * n1 + n2 * n2 + n3 * n3) >= (f * f) * (f * f) - 11 * (f
        * (f * f)));
    assert((f * f) * (n0 * n0 + n1 * n1 + n2 * n2 + n3 * n3) <= (f * f) * (f * f) + 15 * (f
        * (f * f)));
    assert(n0 * n0 + n1 * n1 + n2 * n2 + n3 * n3 >= f * f - 11 * f);
    assert(n0 * n0 + n1 * n1 + n2 * n2 + n3 * n3 <= f * f + 15 * f);
    let nm = spec_normalized(t);
    assert(nm.s == n0 && nm.e12 == n1 && nm.e13 == n2 && nm.e23 == n3);
    lemma_fx_mul_neg_neg(n1, n1);
    lemma_fx_mul_neg_neg(n2, n2);
    lemma_fx_mul_neg_neg(n3, n3);
    lemma_fx_mul_floor(n0, n0);
    lemma_fx_mul_floor(n1, n1);
    lemma_fx_mul_floor(n2, n2);
    lemma_fx_mul_floor(n3, n3);
}


/// Normalization idempotence: for a motor within sixty-four bits of unit
/// squared magnitude whose renormalized image has components within `b`,
/// the renormalized image has magnitude within thirty-three bits of one,
/// and renormalizing a second time moves every component, rescaled by the
/// scale factor, by at most thirty-three `b` plus one scale unit.
pub proof fn lemma_normalized_idempotent(t: MotorV, b: int)
    requires
        0 <= b,
        (ONE_BITS as int) - 64 <= spec_magnitude_squared(t) <= (ONE_BITS as int) + 64,
        motor_bounded(spec_normalized(t), b),
    ensures
        (ONE_BITS as int) - 33 <= spec_magnitude(spec_normalized(t)) <= (ONE_BITS as int) + 31,
        motor_bounded(
            exact_scale(
                motor_sub(spec_normalized(spec_normalized(t)), spec_normalized(t)),
                FRAC_SCALE as int,
            ),
            33 * b + (FRAC_SCALE as int),
        ),
{
    lemma_normalized_norm(t);
    lemma_normalized_stable(spec_normalized(t), b);
}

} // verus!
