//! Homogeneous points and motors of the 3D projective geometric algebra.
//!
//! A [`Transform`] (a motor) is an element of the even subalgebra: a scalar
//! part, three rotation bivectors, three translation bivectors and the
//! pseudoscalar.  It represents a rigid motion; motors compose under the
//! geometric product ([`Transform::apply`]), invert by reversion, and act on
//! homogeneous points ([`Point`]) through the sandwich product, expanded
//! here into its closed polynomial form.  A valid rigid motion is unit-norm:
//! the scalar part of its self-product is one.  Constructors produce
//! unit-norm motors; [`Transform::normalized`] restores the invariant after
//! fixed-point drift accumulates over long composition chains, and it is the
//! caller's charge to maintain it.
//!
//! Every contract states the result exactly over the bit-level model of the
//! fields.  The multilinear operations require their operands to lie in the
//! documented operating range so that no intermediate product can leave the
//! `i128` bit range.

use crate::number::{
    fx_div, fx_mul, fx_recip, fx_sqrt, in_range, is_sqrt_floor, lemma_fx_mul_bounds,
    lemma_fx_mul_neg_half, lemma_fx_mul_neg_neg, lemma_fx_mul_one, lemma_fx_mul_range,
    lemma_fx_mul_zero, lemma_fx_square_nonneg, Number, FRAC_SCALE, HALF_BITS, ONE_BITS,
    PROD_RANGE_BITS, RANGE_BITS,
};
use crate::trig::{sin_cos, spec_cos, spec_sin};
use crate::vector3::{Vec3V, Vector3};
use vstd::arithmetic::div_mod::{lemma_div_is_ordered, lemma_div_is_ordered_by_denominator};
use vstd::prelude::*;

verus! {

/// Largest bit magnitude of a product of three operands from the operating
/// range: `2^116`.
pub const TRIPLE_RANGE_BITS: i128 = 83076749736557242056487941267521536;

/// Largest bit magnitude of a product of three operands from the operating
/// range with one of them doubled: `2^117`.
pub const DOUBLED_TRIPLE_RANGE_BITS: i128 = 166153499473114484112975882535043072;

/// Twice the operating range bound: `2^61`.
pub const DOUBLED_RANGE_BITS: i128 = 2305843009213693952;

/// Largest bit magnitude of a reciprocal of a positive number: `2^64`.
pub const RECIP_MAX_BITS: i128 = 18446744073709551616;

/// The mathematical model of a [`Point`]: its four bit patterns.
pub struct PointV {
    pub e012: int,
    pub e013: int,
    pub e023: int,
    pub e123: int,
}

/// The mathematical model of a [`Transform`]: its eight bit patterns.
pub struct MotorV {
    pub s: int,
    pub e12: int,
    pub e13: int,
    pub e23: int,
    pub e01: int,
    pub e02: int,
    pub e03: int,
    pub e0123: int,
}

/// All eight motor components lie in the operating range.
pub open spec fn motor_in_range(t: MotorV) -> bool {
    &&& in_range(t.s)
    &&& in_range(t.e12)
    &&& in_range(t.e13)
    &&& in_range(t.e23)
    &&& in_range(t.e01)
    &&& in_range(t.e02)
    &&& in_range(t.e03)
    &&& in_range(t.e0123)
}

/// All four point components lie in the operating range.
pub open spec fn point_in_range(p: PointV) -> bool {
    &&& in_range(p.e012)
    &&& in_range(p.e013)
    &&& in_range(p.e023)
    &&& in_range(p.e123)
}

/// A fixed-point product of three factors, truncated after each step.
pub open spec fn tri_prod(x: int, y: int, z: int) -> int {
    fx_mul(fx_mul(x, y), z)
}

/// A fixed-point product of three factors with the first one multiplied by
/// the small whole number `c`; the whole-number scaling is exact.
pub open spec fn tri_prod_scaled(c: int, x: int, y: int, z: int) -> int {
    fx_mul(fx_mul(c * x, y), z)
}

/// The identity motor: scalar one, everything else zero.
pub open spec fn spec_identity() -> MotorV {
    MotorV { s: ONE_BITS as int, e12: 0, e13: 0, e23: 0, e01: 0, e02: 0, e03: 0, e0123: 0 }
}

/// The pure translation motor moving by `v`: each translation bivector is
/// the corresponding offset component scaled by minus one half, the fixed
/// convention that makes sandwich application move points by `v`.
pub open spec fn spec_translation(v: Vec3V) -> MotorV {
    MotorV {
        s: ONE_BITS as int,
        e12: 0,
        e13: 0,
        e23: 0,
        e01: fx_mul(v.x, -(HALF_BITS as int)),
        e02: fx_mul(v.y, -(HALF_BITS as int)),
        e03: fx_mul(v.z, -(HALF_BITS as int)),
        e0123: 0,
    }
}

/// The half angle handed to the trigonometric kernel by the rotation
/// constructors.
pub open spec fn spec_half_angle(angle: int) -> int {
    fx_mul(angle, HALF_BITS as int)
}

/// The pure rotation motor in the xy plane: a half-angle rotor.
pub open spec fn spec_rotation_xy(angle: int) -> MotorV {
    MotorV {
        s: spec_cos(spec_half_angle(angle)),
        e12: spec_sin(spec_half_angle(angle)),
        e13: 0,
        e23: 0,
        e01: 0,
        e02: 0,
        e03: 0,
        e0123: 0,
    }
}

/// The pure rotation motor in the xz plane: a half-angle rotor.
pub open spec fn spec_rotation_xz(angle: int) -> MotorV {
    MotorV {
        s: spec_cos(spec_half_angle(angle)),
        e12: 0,
        e13: spec_sin(spec_half_angle(angle)),
        e23: 0,
        e01: 0,
        e02: 0,
        e03: 0,
        e0123: 0,
    }
}

/// The pure rotation motor in the yz plane: a half-angle rotor.
pub open spec fn spec_rotation_yz(angle: int) -> MotorV {
    MotorV {
        s: spec_cos(spec_half_angle(angle)),
        e12: 0,
        e13: 0,
        e23: spec_sin(spec_half_angle(angle)),
        e01: 0,
        e02: 0,
        e03: 0,
        e0123: 0,
    }
}

/// The geometric product of two motors in the fixed-point representation:
/// every component is a fixed bilinear form over the sixteen inputs,
/// with each pairwise product truncated toward negative infinity.
pub open spec fn spec_apply(x: MotorV, y: MotorV) -> MotorV {
    let a = x.s;
    let b = x.e12;
    let c = x.e13;
    let d = x.e23;
    let e = x.e01;
    let f = x.e02;
    let g = x.e03;
    let h = x.e0123;
    let i = y.s;
    let j = y.e12;
    let k = y.e13;
    let l = y.e23;
    let m = y.e01;
    let n = y.e02;
    let o = y.e03;
    let p = y.e0123;
    MotorV {
        s: fx_mul(-b, j) + fx_mul(-c, k) + fx_mul(-d, l) + fx_mul(a, i),
        e12: fx_mul(-c, l) + fx_mul(a, j) + fx_mul(b, i) + fx_mul(d, k),
        e13: fx_mul(-d, j) + fx_mul(a, k) + fx_mul(b, l) + fx_mul(c, i),
        e23: fx_mul(-b, k) + fx_mul(a, l) + fx_mul(c, j) + fx_mul(d, i),
        e01: fx_mul(-d, p) + fx_mul(-f, j) + fx_mul(-g, k) + fx_mul(-h, l) + fx_mul(a, m)
            + fx_mul(b, n) + fx_mul(c, o) + fx_mul(e, i),
        e02: fx_mul(-b, m) + fx_mul(-g, l) + fx_mul(a, n) + fx_mul(c, p) + fx_mul(d, o)
            + fx_mul(e, j) + fx_mul(f, i) + fx_mul(h, k),
        e03: fx_mul(-b, p) + fx_mul(-c, m) + fx_mul(-d, n) + fx_mul(-h, j) + fx_mul(a, o)
            + fx_mul(e, k) + fx_mul(f, l) + fx_mul(g, i),
        e0123: fx_mul(-c, n) + fx_mul(-f, k) + fx_mul(a, p) + fx_mul(b, o) + fx_mul(d, m)
            + fx_mul(e, l) + fx_mul(g, j) + fx_mul(h, i),
    }
}

/// The reversion of a motor: the six bivector components change sign, the
/// scalar and pseudoscalar keep theirs.  For a unit-norm motor this is its
/// inverse under the geometric product.
pub open spec fn spec_inverse(t: MotorV) -> MotorV {
    MotorV {
        s: t.s,
        e12: -t.e12,
        e13: -t.e13,
        e23: -t.e23,
        e01: -t.e01,
        e02: -t.e02,
        e03: -t.e03,
        e0123: t.e0123,
    }
}

/// The squared magnitude of a motor: the scalar part of the product of the
/// motor with its reversion.
pub open spec fn spec_magnitude_squared(t: MotorV) -> int {
    spec_apply(t, spec_inverse(t)).s
}

/// The magnitude of a motor: the fixed-point square root of the squared
/// magnitude, rounded down.
pub open spec fn spec_magnitude(t: MotorV) -> int {
    fx_sqrt(spec_magnitude_squared(t))
}

/// A motor with every component scaled by the same fixed-point factor.
pub open spec fn spec_scale(t: MotorV, factor: int) -> MotorV {
    MotorV {
        s: fx_mul(t.s, factor),
        e12: fx_mul(t.e12, factor),
        e13: fx_mul(t.e13, factor),
        e23: fx_mul(t.e23, factor),
        e01: fx_mul(t.e01, factor),
        e02: fx_mul(t.e02, factor),
        e03: fx_mul(t.e03, factor),
        e0123: fx_mul(t.e0123, factor),
    }
}

/// The renormalized motor: every component scaled by the reciprocal of the
/// magnitude.
pub open spec fn spec_normalized(t: MotorV) -> MotorV {
    spec_scale(t, fx_recip(spec_magnitude(t)))
}

/// The sandwich product applied to a point: every output coefficient is the
/// fixed sum of quadratic-in-motor, linear-in-point terms, each triple
/// product truncated after every step exactly as the executable code
/// computes it.
pub open spec fn spec_point_transform(pt: PointV, mt: MotorV) -> PointV {
    let a = mt.s;
    let b = mt.e12;
    let c = mt.e13;
    let d = mt.e23;
    let e = mt.e01;
    let f = mt.e02;
    let g = mt.e03;
    let h = mt.e0123;
    let i = pt.e012;
    let j = pt.e013;
    let k = pt.e023;
    let l = pt.e123;
    PointV {
        e012: tri_prod_scaled(-2, a, d, j) + tri_prod_scaled(-2, a, g, l) + tri_prod(a, a, i)
            + tri_prod_scaled(2, a, c, k) - tri_prod(d, d, i) + tri_prod_scaled(-2, d, f, l)
            + tri_prod_scaled(2, b, d, k) + tri_prod_scaled(-2, b, h, l)
            + tri_prod_scaled(-2, c, e, l) + tri_prod(b, b, i) + tri_prod_scaled(2, b, c, j)
            - tri_prod(c, c, i),
        e013: tri_prod_scaled(-2, a, b, k) - tri_prod(b, b, j) + tri_prod_scaled(2, b, c, i)
            + tri_prod_scaled(2, b, e, l) + tri_prod(a, a, j) + tri_prod_scaled(2, a, d, i)
            + tri_prod_scaled(2, a, f, l) + tri_prod_scaled(-2, c, h, l)
            + tri_prod_scaled(-2, d, g, l) - tri_prod(d, d, j) + tri_prod_scaled(2, c, d, k)
            + tri_prod(c, c, j),
        e023: tri_prod_scaled(-2, a, c, i) + tri_prod_scaled(-2, a, e, l) + tri_prod(a, a, k)
            + tri_prod_scaled(2, a, b, j) - tri_prod(c, c, k) + tri_prod_scaled(2, c, d, j)
            + tri_prod_scaled(2, c, g, l) + tri_prod_scaled(-2, d, h, l)
            + tri_prod_scaled(2, b, f, l) - tri_prod(b, b, k) + tri_prod_scaled(2, b, d, i)
            + tri_prod(d, d, k),
        e123: tri_prod(a, a, l) + tri_prod(b, b, l) + tri_prod(c, c, l) + tri_prod(d, d, l),
    }
}

/// The embedding of a vector as a homogeneous point: the fixed axis
/// permutation and sign flip of the chosen trivector basis, with weight one.
pub open spec fn spec_point_from_vec3(v: Vec3V) -> PointV {
    PointV { e012: v.z, e013: -v.y, e023: v.x, e123: ONE_BITS as int }
}

/// The projection of a finite homogeneous point back to a vector: each
/// coordinate divided by the weight.
pub open spec fn spec_vec3_from_point(p: PointV) -> Vec3V {
    Vec3V {
        x: fx_div(p.e023, p.e123),
        y: fx_div(-p.e013, p.e123),
        z: fx_div(p.e012, p.e123),
    }
}

/// A homogeneous point of the algebra: the coefficients of the four basis
/// trivectors, with `e123` as the homogeneous weight.  A finite point has a
/// non-zero weight.
#[derive(Debug, Clone, Copy)]
pub struct Point {
    pub e012: Number,
    pub e013: Number,
    pub e023: Number,
    pub e123: Number,
}

impl View for Point {
    type V = PointV;

    open spec fn view(&self) -> PointV {
        PointV { e012: self.e012@, e013: self.e013@, e023: self.e023@, e123: self.e123@ }
    }
}

/// A motor: the even-subalgebra element representing a rigid motion.
#[derive(Debug, Clone, Copy)]
pub struct Transform {
    pub s: Number,
    pub e12: Number,
    pub e13: Number,
    pub e23: Number,
    pub e01: Number,
    pub e02: Number,
    pub e03: Number,
    pub e0123: Number,
}

impl View for Transform {
    type V = MotorV;

    open spec fn view(&self) -> MotorV {
        MotorV {
            s: self.s@,
            e12: self.e12@,
            e13: self.e13@,
            e23: self.e23@,
            e01: self.e01@,
            e02: self.e02@,
            e03: self.e03@,
            e0123: self.e0123@,
        }
    }
}

/// The pose of the viewer: a single motor.
pub struct Camera {
    pub transform: Transform,
}

/// A range-checked fixed-point product, bounded by `PROD_RANGE_BITS`.
fn mul_rr(x: Number, y: Number) -> (r: Number)
    requires
        in_range(x@),
        in_range(y@),
    ensures
        r@ == fx_mul(x@, y@),
        -(PROD_RANGE_BITS as int) <= r@ <= PROD_RANGE_BITS as int,
{
    proof {
        lemma_fx_mul_range(x@, y@);
    }
    x.mul(y)
}

/// A range-checked triple product, truncated after each factor.
fn term3(x: Number, y: Number, z: Number) -> (r: Number)
    requires
        in_range(x@),
        in_range(y@),
        in_range(z@),
    ensures
        r@ == tri_prod(x@, y@, z@),
        -(TRIPLE_RANGE_BITS as int) <= r@ <= TRIPLE_RANGE_BITS as int,
{
    let t = mul_rr(x, y);
    proof {
        lemma_fx_mul_bounds(t@, z@, PROD_RANGE_BITS as int, RANGE_BITS as int);
    }
    t.mul(z)
}

/// A range-checked triple product with a leading whole-number factor of
/// two or minus two, matching the doubled terms of the sandwich product.
fn term3c(c: i64, x: Number, y: Number, z: Number) -> (r: Number)
    requires
        c == 2 || c == -2,
        in_range(x@),
        in_range(y@),
        in_range(z@),
    ensures
        r@ == tri_prod_scaled(c as int, x@, y@, z@),
        -(DOUBLED_TRIPLE_RANGE_BITS as int) <= r@ <= DOUBLED_TRIPLE_RANGE_BITS as int,
{
    let factor = Number::from_num(c);
    proof {
        crate::number::lemma_fx_mul_whole(c as int, x@);
        assert(-(DOUBLED_RANGE_BITS as int) <= (c as int) * x@ <= DOUBLED_RANGE_BITS as int)
            by (nonlinear_arith)
            requires
                c == 2 || c == -2,
                -(RANGE_BITS as int) <= x@ <= RANGE_BITS as int,
        ;
    }
    let t1 = factor.mul(x);
    proof {
        lemma_fx_mul_bounds(t1@, y@, DOUBLED_RANGE_BITS as int, RANGE_BITS as int);
    }
    let t2 = t1.mul(y);
    proof {
        lemma_fx_mul_bounds(
            t2@,
            z@,
            (DOUBLED_RANGE_BITS as int) * (RANGE_BITS as int) / (FRAC_SCALE as int),
            RANGE_BITS as int,
        );
    }
    t2.mul(z)
}

impl Point {
    /// The all-zero point.
    pub fn identity() -> (r: Point)
        ensures
            r@ == (PointV { e012: 0, e013: 0, e023: 0, e123: 0 }),
    {
        Point {
            e012: Number::zero(),
            e013: Number::zero(),
            e023: Number::zero(),
            e123: Number::zero(),
        }
    }

    /// Embeds a vector as a finite homogeneous point with weight one.
    pub fn from(value: Vector3) -> (r: Point)
        requires
            value@.y != i128::MIN,
        ensures
            r@ == spec_point_from_vec3(value@),
    {
        Point { e012: value.z, e013: value.y.neg(), e023: value.x, e123: Number::one() }
    }

    /// Applies a motor to the point through the sandwich product, expanded
    /// into its closed polynomial form.  The coefficients are a fixed
    /// convention of the chosen trivector basis; changing any sign would
    /// silently mirror or twist every downstream motion.
    pub fn transform(self, motor: Transform) -> (r: Point)
        requires
            point_in_range(self@),
            motor_in_range(motor@),
        ensures
            r@ == spec_point_transform(self@, motor@),
    {
        let a = motor.s;
        let b = motor.e12;
        let c = motor.e13;
        let d = motor.e23;
        let e = motor.e01;
        let f = motor.e02;
        let g = motor.e03;
        let h = motor.e0123;
        let i = self.e012;
        let j = self.e013;
        let k = self.e023;
        let l = self.e123;

        let e012 = term3c(-2, a, d, j)
            .add(term3c(-2, a, g, l))
            .add(term3(a, a, i))
            .add(term3c(2, a, c, k))
            .sub(term3(d, d, i))
            .add(term3c(-2, d, f, l))
            .add(term3c(2, b, d, k))
            .add(term3c(-2, b, h, l))
            .add(term3c(-2, c, e, l))
            .add(term3(b, b, i))
            .add(term3c(2, b, c, j))
            .sub(term3(c, c, i));
        let e013 = term3c(-2, a, b, k)
            .sub(term3(b, b, j))
            .add(term3c(2, b, c, i))
            .add(term3c(2, b, e, l))
            .add(term3(a, a, j))
            .add(term3c(2, a, d, i))
            .add(term3c(2, a, f, l))
            .add(term3c(-2, c, h, l))
            .add(term3c(-2, d, g, l))
            .sub(term3(d, d, j))
            .add(term3c(2, c, d, k))
            .add(term3(c, c, j));
        let e023 = term3c(-2, a, c, i)
            .add(term3c(-2, a, e, l))
            .add(term3(a, a, k))
            .add(term3c(2, a, b, j))
            .sub(term3(c, c, k))
            .add(term3c(2, c, d, j))
            .add(term3c(2, c, g, l))
            .add(term3c(-2, d, h, l))
            .add(term3c(2, b, f, l))
            .sub(term3(b, b, k))
            .add(term3c(2, b, d, i))
            .add(term3(d, d, k));
        let e123 = term3(a, a, l).add(term3(b, b, l)).add(term3(c, c, l)).add(term3(d, d, l));
        Point { e012, e013, e023, e123 }
    }
}

impl Vector3 {
    /// Projects a finite homogeneous point back to a vector by dividing
    /// each coordinate by the weight.  The weight must be non-zero: a point
    /// at infinity has no vector image and is rejected up front.
    pub fn from(value: Point) -> (r: Vector3)
        requires
            value@.e123 != 0,
            value@.e013 != i128::MIN,
            i128::MIN <= fx_div(value@.e023, value@.e123) <= i128::MAX,
            i128::MIN <= fx_div(-value@.e013, value@.e123) <= i128::MAX,
            i128::MIN <= fx_div(value@.e012, value@.e123) <= i128::MAX,
        ensures
            r@ == spec_vec3_from_point(value@),
    {
        Vector3 {
            x: value.e023.div(value.e123),
            y: value.e013.neg().div(value.e123),
            z: value.e012.div(value.e123),
        }
    }
}

impl Transform {
    /// The identity motor, the unit of composition.  It is exactly
    /// unit-norm.
    pub fn identity() -> (r: Transform)
        ensures
            r@ == spec_identity(),
            motor_in_range(r@),
            spec_magnitude_squared(r@) == ONE_BITS as int,
    {
        proof {
            lemma_fx_mul_zero(0);
            lemma_fx_mul_one(ONE_BITS as int);
        }
        Transform {
            s: Number::one(),
            e12: Number::zero(),
            e13: Number::zero(),
            e23: Number::zero(),
            e01: Number::zero(),
            e02: Number::zero(),
            e03: Number::zero(),
            e0123: Number::zero(),
        }
    }

    /// The pure translation moving points by `offset`.  The minus-one-half
    /// scale on the translation bivectors is the fixed convention that
    /// makes repeated application compose translations additively under the
    /// sandwich product.
    /// It is exactly unit-norm, and an offset from the operating range
    /// yields a motor in the operating range.
    pub fn translation(offset: Vector3) -> (r: Transform)
        ensures
            r@ == spec_translation(offset@),
            spec_magnitude_squared(r@) == ONE_BITS as int,
            crate::vector3::vec3_in_range(offset@) ==> motor_in_range(r@),
    {
        let minus_half = Number::from_bits(-HALF_BITS);
        proof {
            lemma_fx_mul_bounds(offset@.x, -(HALF_BITS as int), i128::MAX as int + 1, HALF_BITS as int);
            lemma_fx_mul_bounds(offset@.y, -(HALF_BITS as int), i128::MAX as int + 1, HALF_BITS as int);
            lemma_fx_mul_bounds(offset@.z, -(HALF_BITS as int), i128::MAX as int + 1, HALF_BITS as int);
            lemma_fx_mul_zero(0);
            lemma_fx_mul_one(ONE_BITS as int);
            lemma_fx_mul_zero(fx_mul(offset@.x, -(HALF_BITS as int)));
            lemma_fx_mul_zero(fx_mul(offset@.y, -(HALF_BITS as int)));
            lemma_fx_mul_zero(fx_mul(offset@.z, -(HALF_BITS as int)));
            lemma_fx_mul_neg_half(offset@.x);
            lemma_fx_mul_neg_half(offset@.y);
            lemma_fx_mul_neg_half(offset@.z);
            if crate::vector3::vec3_in_range(offset@) {
                lemma_div_is_ordered(-(RANGE_BITS as int), -offset@.x, 2);
                lemma_div_is_ordered(-offset@.x, RANGE_BITS as int, 2);
                lemma_div_is_ordered(-(RANGE_BITS as int), -offset@.y, 2);
                lemma_div_is_ordered(-offset@.y, RANGE_BITS as int, 2);
                lemma_div_is_ordered(-(RANGE_BITS as int), -offset@.z, 2);
                lemma_div_is_ordered(-offset@.z, RANGE_BITS as int, 2);
            }
        }
        Transform {
            s: Number::one(),
            e12: Number::zero(),
            e13: Number::zero(),
            e23: Number::zero(),
            e01: offset.x.mul(minus_half),
            e02: offset.y.mul(minus_half),
            e03: offset.z.mul(minus_half),
            e0123: Number::zero(),
        }
    }

    /// The pure rotation in the xy plane by `angle`: a half-angle rotor.
    /// Its squared magnitude sits within two bits below one: the rotor is
    /// a near-unit motor.
    pub fn rotation_xy(angle: Number) -> (r: Transform)
        ensures
            r@ == spec_rotation_xy(angle@),
            motor_in_range(r@),
            (ONE_BITS as int) - 2 <= spec_magnitude_squared(r@) <= ONE_BITS as int,
    {
        let (sin, cos) = half_angle_sin_cos(angle);
        proof {
            lemma_fx_mul_zero(0);
            lemma_fx_mul_neg_neg(sin@, sin@);
        }
        Transform {
            s: cos,
            e12: sin,
            e13: Number::zero(),
            e23: Number::zero(),
            e01: Number::zero(),
            e02: Number::zero(),
            e03: Number::zero(),
            e0123: Number::zero(),
        }
    }

    /// The pure rotation in the xz plane by `angle`: a half-angle rotor.
    /// Its squared magnitude sits within two bits below one: the rotor is
    /// a near-unit motor.
    pub fn rotation_xz(angle: Number) -> (r: Transform)
        ensures
            r@ == spec_rotation_xz(angle@),
            motor_in_range(r@),
            (ONE_BITS as int) - 2 <= spec_magnitude_squared(r@) <= ONE_BITS as int,
    {
        let (sin, cos) = half_angle_sin_cos(angle);
        proof {
            lemma_fx_mul_zero(0);
            lemma_fx_mul_neg_neg(sin@, sin@);
        }
        Transform {
            s: cos,
            e12: Number::zero(),
            e13: sin,
            e23: Number::zero(),
            e01: Number::zero(),
            e02: Number::zero(),
            e03: Number::zero(),
            e0123: Number::zero(),
        }
    }

    /// The pure rotation in the yz plane by `angle`: a half-angle rotor.
    /// Its squared magnitude sits within two bits below one: the rotor is
    /// a near-unit motor.
    pub fn rotation_yz(angle: Number) -> (r: Transform)
        ensures
            r@ == spec_rotation_yz(angle@),
            motor_in_range(r@),
            (ONE_BITS as int) - 2 <= spec_magnitude_squared(r@) <= ONE_BITS as int,
    {
        let (sin, cos) = half_angle_sin_cos(angle);
        proof {
            lemma_fx_mul_zero(0);
            lemma_fx_mul_neg_neg(sin@, sin@);
        }
        Transform {
            s: cos,
            e12: Number::zero(),
            e13: Number::zero(),
            e23: sin,
            e01: Number::zero(),
            e02: Number::zero(),
            e03: Number::zero(),
            e0123: Number::zero(),
        }
    }

    /// The geometric product `self * other`: the group operation of rigid
    /// motions.  It is not commutative; the right factor is the motion
    /// applied first when the result acts on points.
    pub fn apply(self, other: Transform) -> (r: Transform)
        requires
            motor_in_range(self@),
            motor_in_range(other@),
        ensures
            r@ == spec_apply(self@, other@),
    {
        let a = self.s;
        let b = self.e12;
        let c = self.e13;
        let d = self.e23;
        let e = self.e01;
        let f = self.e02;
        let g = self.e03;
        let h = self.e0123;
        let i = other.s;
        let j = other.e12;
        let k = other.e13;
        let l = other.e23;
        let m = other.e01;
        let n = other.e02;
        let o = other.e03;
        let p = other.e0123;

        let s = mul_rr(b.neg(), j).add(mul_rr(c.neg(), k)).add(mul_rr(d.neg(), l)).add(
            mul_rr(a, i),
        );
        let e12 = mul_rr(c.neg(), l).add(mul_rr(a, j)).add(mul_rr(b, i)).add(mul_rr(d, k));
        let e13 = mul_rr(d.neg(), j).add(mul_rr(a, k)).add(mul_rr(b, l)).add(mul_rr(c, i));
        let e23 = mul_rr(b.neg(), k).add(mul_rr(a, l)).add(mul_rr(c, j)).add(mul_rr(d, i));
        let e01 = mul_rr(d.neg(), p)
            .add(mul_rr(f.neg(), j))
            .add(mul_rr(g.neg(), k))
            .add(mul_rr(h.neg(), l))
            .add(mul_rr(a, m))
            .add(mul_rr(b, n))
            .add(mul_rr(c, o))
            .add(mul_rr(e, i));
        let e02 = mul_rr(b.neg(), m)
            .add(mul_rr(g.neg(), l))
            .add(mul_rr(a, n))
            .add(mul_rr(c, p))
            .add(mul_rr(d, o))
            .add(mul_rr(e, j))
            .add(mul_rr(f, i))
            .add(mul_rr(h, k));
        let e03 = mul_rr(b.neg(), p)
            .add(mul_rr(c.neg(), m))
            .add(mul_rr(d.neg(), n))
            .add(mul_rr(h.neg(), j))
            .add(mul_rr(a, o))
            .add(mul_rr(e, k))
            .add(mul_rr(f, l))
            .add(mul_rr(g, i));
        let e0123 = mul_rr(c.neg(), n)
            .add(mul_rr(f.neg(), k))
            .add(mul_rr(a, p))
            .add(mul_rr(b, o))
            .add(mul_rr(d, m))
            .add(mul_rr(e, l))
            .add(mul_rr(g, j))
            .add(mul_rr(h, i));
        Transform { s, e12, e13, e23, e01, e02, e03, e0123 }
    }

    /// Left-multiplication helper: applies `other` before the existing
    /// motion, so `self.pre_apply(other)` is `other.apply(self)`.
    pub fn pre_apply(self, other: Transform) -> (r: Transform)
        requires
            motor_in_range(self@),
            motor_in_range(other@),
        ensures
            r@ == spec_apply(other@, self@),
    {
        other.apply(self)
    }

    /// The reversion of the motor: its inverse under the geometric product
    /// whenever the motor is unit-norm.
    pub fn inverse(self) -> (r: Transform)
        requires
            self@.e12 != i128::MIN,
            self@.e13 != i128::MIN,
            self@.e23 != i128::MIN,
            self@.e01 != i128::MIN,
            self@.e02 != i128::MIN,
            self@.e03 != i128::MIN,
        ensures
            r@ == spec_inverse(self@),
    {
        Transform {
            s: self.s,
            e12: self.e12.neg(),
            e13: self.e13.neg(),
            e23: self.e23.neg(),
            e01: self.e01.neg(),
            e02: self.e02.neg(),
            e03: self.e03.neg(),
            e0123: self.e0123,
        }
    }

    /// The scalar part of the product of the motor with its reversion.  It
    /// is never negative, and is one for a valid rigid motion.
    pub fn magnitude_squared(self) -> (r: Number)
        requires
            motor_in_range(self@),
        ensures
            r@ == spec_magnitude_squared(self@),
            0 <= r@ <= 4 * (PROD_RANGE_BITS as int),
    {
        proof {
            lemma_fx_mul_neg_neg(self@.e12, self@.e12);
            lemma_fx_mul_neg_neg(self@.e13, self@.e13);
            lemma_fx_mul_neg_neg(self@.e23, self@.e23);
            lemma_fx_square_nonneg(self@.e12);
            lemma_fx_square_nonneg(self@.e13);
            lemma_fx_square_nonneg(self@.e23);
            lemma_fx_square_nonneg(self@.s);
            lemma_fx_mul_range(self@.e12, self@.e12);
            lemma_fx_mul_range(self@.e13, self@.e13);
            lemma_fx_mul_range(self@.e23, self@.e23);
            lemma_fx_mul_range(self@.s, self@.s);
        }
        self.apply(self.inverse()).s
    }

    /// The magnitude: the fixed-point square root of the squared magnitude,
    /// rounded down.
    pub fn magnitude(self) -> (r: Number)
        requires
            motor_in_range(self@),
        ensures
            r@ == spec_magnitude(self@),
            is_sqrt_floor(spec_magnitude_squared(self@) * (FRAC_SCALE as int), r@),
            r@ >= 0,
    {
        self.magnitude_squared().sqrt()
    }

    /// The motor rescaled to unit norm: every component is multiplied by
    /// the reciprocal of the magnitude.  A zero squared magnitude never
    /// describes a rigid motion and is rejected up front rather than
    /// propagated; required after long composition chains to counteract
    /// fixed-point drift.
    pub fn normalized(self) -> (r: Transform)
        requires
            motor_in_range(self@),
            spec_magnitude_squared(self@) != 0,
        ensures
            r@ == spec_normalized(self@),
    {
        let magnitude = self.magnitude();
        proof {
            let msq = spec_magnitude_squared(self@);
            let m = magnitude@;
            assert(m * m >= 0) by (nonlinear_arith);
            assert(msq >= 0) by (nonlinear_arith)
                requires
                    0 <= m * m <= msq * (FRAC_SCALE as int),
            ;
            assert(m >= 1) by (nonlinear_arith)
                requires
                    msq >= 1,
                    m >= 0,
                    msq * (FRAC_SCALE as int) < (m + 1) * (m + 1),
            ;
        }
        let inverse_magnitude = magnitude.recip();
        proof {
            lemma_div_is_ordered_by_denominator(
                (ONE_BITS as int) * (FRAC_SCALE as int),
                1,
                magnitude@,
            );
            vstd::arithmetic::div_mod::lemma_div_pos_is_pos(
                (ONE_BITS as int) * (FRAC_SCALE as int),
                magnitude@,
            );
            assert(0 <= fx_recip(magnitude@) <= RECIP_MAX_BITS as int);
            lemma_fx_mul_bounds(
                self@.s,
                inverse_magnitude@,
                RANGE_BITS as int,
                RECIP_MAX_BITS as int,
            );
            lemma_fx_mul_bounds(
                self@.e12,
                inverse_magnitude@,
                RANGE_BITS as int,
                RECIP_MAX_BITS as int,
            );
            lemma_fx_mul_bounds(
                self@.e13,
                inverse_magnitude@,
                RANGE_BITS as int,
                RECIP_MAX_BITS as int,
            );
            lemma_fx_mul_bounds(
                self@.e23,
                inverse_magnitude@,
                RANGE_BITS as int,
                RECIP_MAX_BITS as int,
            );
            lemma_fx_mul_bounds(
                self@.e01,
                inverse_magnitude@,
                RANGE_BITS as int,
                RECIP_MAX_BITS as int,
            );
            lemma_fx_mul_bounds(
                self@.e02,
                inverse_magnitude@,
                RANGE_BITS as int,
                RECIP_MAX_BITS as int,
            );
            lemma_fx_mul_bounds(
                self@.e03,
                inverse_magnitude@,
                RANGE_BITS as int,
                RECIP_MAX_BITS as int,
            );
            lemma_fx_mul_bounds(
                self@.e0123,
                inverse_magnitude@,
                RANGE_BITS as int,
                RECIP_MAX_BITS as int,
            );
        }
        Transform {
            s: self.s.mul(inverse_magnitude),
            e12: self.e12.mul(inverse_magnitude),
            e13: self.e13.mul(inverse_magnitude),
            e23: self.e23.mul(inverse_magnitude),
            e01: self.e01.mul(inverse_magnitude),
            e02: self.e02.mul(inverse_magnitude),
            e03: self.e03.mul(inverse_magnitude),
            e0123: self.e0123.mul(inverse_magnitude),
        }
    }
}

/// The sine and cosine of half the given angle, as the rotation
/// constructors use them.
fn half_angle_sin_cos(angle: Number) -> (r: (Number, Number))
    ensures
        r.0@ == spec_sin(spec_half_angle(angle@)),
        r.1@ == spec_cos(spec_half_angle(angle@)),
        -(ONE_BITS as int) <= r.0@ <= ONE_BITS as int,
        -(ONE_BITS as int) <= r.1@ <= ONE_BITS as int,
        (ONE_BITS as int) - 2 <= fx_mul(r.0@, r.0@) + fx_mul(r.1@, r.1@) <= ONE_BITS as int,
        in_range(r.0@),
        in_range(r.1@),
{
    proof {
        lemma_fx_mul_bounds(angle@, HALF_BITS as int, i128::MAX as int + 1, HALF_BITS as int);
    }
    let half_angle = angle.mul(Number::from_bits(HALF_BITS));
    sin_cos(half_angle)
}

} // verus!
