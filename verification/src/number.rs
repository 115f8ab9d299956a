//! Fixed-point signed numbers with 32 fractional bits stored in an `i128`.
//!
//! A `Number` holds the raw bit pattern of a `fixed::FixedI128<U32>` value, so
//! the represented quantity is `bits / 2^32`.  Addition, subtraction and
//! negation are plain `i128` arithmetic on the bits and are implemented and
//! verified here directly.  Multiplication, division, square root and
//! reciprocal are delegated to the `fixed` crate through trusted wrappers
//! whose contracts state the exact rounding behaviour of that crate:
//! multiplication floors the scaled product, division and reciprocal truncate
//! toward zero, and the square root rounds down.
//!
//! Overflow policy: every operation carries a `requires` clause that rules
//! out results outside the `i128` range, so verified callers never overflow,
//! wrap or panic.  Division and reciprocal additionally require a non-zero
//! divisor, matching the fail-fast behaviour of the underlying crate.

use vstd::prelude::*;

verus! {

/// Number of fixed-point values per unit: `2^32`.
pub const FRAC_SCALE: i128 = 4294967296;

/// Bit pattern of the value one: `2^32`.
pub const ONE_BITS: i128 = 4294967296;

/// Bit pattern of the value one half: `2^31`.
pub const HALF_BITS: i128 = 2147483648;

/// Truncating integer division: the quotient of `a / b` rounded toward zero,
/// as Rust's integer `/` computes it.  Meaningful only for `b != 0`.
pub open spec fn trunc_div(a: int, b: int) -> int {
    let q = if a >= 0 { a } else { -a } / if b >= 0 { b } else { -b };
    if (a >= 0) == (b >= 0) {
        q
    } else {
        -q
    }
}

/// The bits of the fixed-point product of two bit patterns: the exact product
/// scaled back down, rounded toward negative infinity.  This is what
/// `fixed::FixedI128<U32>` multiplication computes whenever the result fits.
pub open spec fn fx_mul(a: int, b: int) -> int {
    (a * b) / (FRAC_SCALE as int)
}

/// The bits of the fixed-point quotient of two bit patterns: the dividend is
/// scaled up exactly, then divided rounding toward zero.  This is what
/// `fixed::FixedI128<U32>` division computes whenever the result fits.
pub open spec fn fx_div(a: int, b: int) -> int {
    trunc_div(a * (FRAC_SCALE as int), b)
}

/// The bits of the fixed-point reciprocal of a bit pattern.
pub open spec fn fx_recip(a: int) -> int {
    fx_div(ONE_BITS as int, a)
}

/// `r` is the integer square root of `n`, rounded down.
pub open spec fn is_sqrt_floor(n: int, r: int) -> bool {
    &&& r >= 0
    &&& r * r <= n
    &&& n < (r + 1) * (r + 1)
}

/// The bits of the fixed-point square root of a bit pattern: the integer
/// square root of the exactly scaled-up value, rounded down.
pub open spec fn fx_sqrt(a: int) -> int {
    choose|r: int| #[trigger] is_sqrt_floor(a * (FRAC_SCALE as int), r)
}

/// Largest bit magnitude of the documented operating range: `2^60`, about
/// `2.8 * 10^8` in represented value.  All multilinear operations of the
/// algebra require their inputs to lie in this range; it is wide enough for
/// any scene while keeping every intermediate product of three factors and
/// their twelve-term sums inside the `i128` bit range.
pub const RANGE_BITS: i128 = 1152921504606846976;

/// Largest bit magnitude of a fixed-point product of two operands from the
/// operating range: `2^88`.
pub const PROD_RANGE_BITS: i128 = 309485009821345068724781056;

/// `x` lies in the documented operating range of the algebra.
pub open spec fn in_range(x: int) -> bool {
    -(RANGE_BITS as int) <= x <= RANGE_BITS as int
}

/// A signed fixed-point number with 32 fractional bits: the represented
/// value is `bits / 2^32`.
#[derive(Clone, Copy, Debug, PartialEq, Eq, Structural)]
pub struct Number {
    pub bits: i128,
}

impl View for Number {
    type V = int;

    open spec fn view(&self) -> int {
        self.bits as int
    }
}

/// Relies on `fixed::FixedI128::<U32>::mul`: the full 256-bit product of the
/// bit patterns, arithmetically shifted right by the 32 fractional bits, so
/// the scaled product rounded toward negative infinity.  The requirement
/// that the result fits in an `i128` rules out the overflow that the crate
/// only debug-asserts against.
#[verifier::external_body]
fn fixed_mul_bits(a: i128, b: i128) -> (r: i128)
    requires
        i128::MIN <= fx_mul(a as int, b as int) <= i128::MAX,
    ensures
        r == fx_mul(a as int, b as int),
{
    let x = fixed::FixedI128::<fixed::types::extra::U32>::from_bits(a);
    let y = fixed::FixedI128::<fixed::types::extra::U32>::from_bits(b);
    (x * y).to_bits()
}

/// Relies on `fixed::FixedI128::<U32>::div`: the dividend bits are widened
/// and shifted up by the 32 fractional bits, then divided by the divisor
/// bits with the quotient rounded toward zero.  Panics on a zero divisor,
/// which the `requires` rules out.
#[verifier::external_body]
fn fixed_div_bits(a: i128, b: i128) -> (r: i128)
    requires
        b != 0,
        i128::MIN <= fx_div(a as int, b as int) <= i128::MAX,
    ensures
        r == fx_div(a as int, b as int),
{
    let x = fixed::FixedI128::<fixed::types::extra::U32>::from_bits(a);
    let y = fixed::FixedI128::<fixed::types::extra::U32>::from_bits(b);
    (x / y).to_bits()
}

/// Relies on `fixed::FixedI128::<U32>::sqrt`: the result is rounded down
/// with error below one bit, so its bits are the integer square root of the
/// scaled-up input.  Panics on negative input, which the `requires` rules
/// out; for this type the crate documents that the result cannot overflow.
#[verifier::external_body]
fn fixed_sqrt_bits(a: i128) -> (r: i128)
    requires
        a >= 0,
    ensures
        is_sqrt_floor(a * (FRAC_SCALE as int), r as int),
{
    fixed::FixedI128::<fixed::types::extra::U32>::from_bits(a).sqrt().to_bits()
}

/// Relies on `fixed::FixedI128::<U32>::recip`, which for this type divides
/// one by the input, rounding toward zero.  Panics on zero input, which the
/// `requires` rules out; the result of `2^64 / bits` always fits.
#[verifier::external_body]
fn fixed_recip_bits(a: i128) -> (r: i128)
    requires
        a != 0,
    ensures
        r == fx_recip(a as int),
{
    fixed::FixedI128::<fixed::types::extra::U32>::from_bits(a).recip().to_bits()
}

impl Number {
    /// The number with the given raw bit pattern.
    pub fn from_bits(bits: i128) -> (r: Number)
        ensures
            r@ == bits,
    {
        Number { bits }
    }

    /// The raw bit pattern.
    pub fn to_bits(self) -> (r: i128)
        ensures
            r == self@,
    {
        self.bits
    }

    /// The number zero.
    pub fn zero() -> (r: Number)
        ensures
            r@ == 0,
    {
        Number { bits: 0 }
    }

    /// The number one.
    pub fn one() -> (r: Number)
        ensures
            r@ == ONE_BITS,
    {
        Number { bits: ONE_BITS }
    }

    /// The integer `n` as a fixed-point number.
    pub fn from_num(n: i64) -> (r: Number)
        ensures
            r@ == n * (FRAC_SCALE as int),
    {
        Number { bits: (n as i128) * FRAC_SCALE }
    }

    /// Exact fixed-point addition.
    pub fn add(self, rhs: Number) -> (r: Number)
        requires
            i128::MIN <= self@ + rhs@ <= i128::MAX,
        ensures
            r@ == self@ + rhs@,
    {
        Number { bits: self.bits + rhs.bits }
    }

    /// Exact fixed-point subtraction.
    pub fn sub(self, rhs: Number) -> (r: Number)
        requires
            i128::MIN <= self@ - rhs@ <= i128::MAX,
        ensures
            r@ == self@ - rhs@,
    {
        Number { bits: self.bits - rhs.bits }
    }

    /// Exact fixed-point negation.
    pub fn neg(self) -> (r: Number)
        requires
            self@ != i128::MIN,
        ensures
            r@ == -self@,
    {
        Number { bits: -self.bits }
    }

    /// Fixed-point multiplication, rounding toward negative infinity.
    pub fn mul(self, rhs: Number) -> (r: Number)
        requires
            i128::MIN <= fx_mul(self@, rhs@) <= i128::MAX,
        ensures
            r@ == fx_mul(self@, rhs@),
    {
        Number { bits: fixed_mul_bits(self.bits, rhs.bits) }
    }

    /// Fixed-point division, rounding toward zero.  The divisor must be
    /// non-zero: a zero divisor is a caller error and is rejected up front
    /// rather than silently producing a value.
    pub fn div(self, rhs: Number) -> (r: Number)
        requires
            rhs@ != 0,
            i128::MIN <= fx_div(self@, rhs@) <= i128::MAX,
        ensures
            r@ == fx_div(self@, rhs@),
    {
        Number { bits: fixed_div_bits(self.bits, rhs.bits) }
    }

    /// Fixed-point square root, rounded down.  The input must be
    /// non-negative.
    pub fn sqrt(self) -> (r: Number)
        requires
            self@ >= 0,
        ensures
            is_sqrt_floor(self@ * (FRAC_SCALE as int), r@),
            r@ == fx_sqrt(self@),
    {
        let bits = fixed_sqrt_bits(self.bits);
        proof {
            assert(exists|r: int| #[trigger] is_sqrt_floor(self@ * (FRAC_SCALE as int), r)) by {
                assert(is_sqrt_floor(self@ * (FRAC_SCALE as int), bits as int));
            }
            lemma_sqrt_floor_unique(self@ * (FRAC_SCALE as int), bits as int, fx_sqrt(self@));
        }
        Number { bits }
    }

    /// Fixed-point reciprocal, rounding toward zero.  The input must be
    /// non-zero.
    pub fn recip(self) -> (r: Number)
        requires
            self@ != 0,
        ensures
            r@ == fx_recip(self@),
    {
        Number { bits: fixed_recip_bits(self.bits) }
    }
}

/// A product of two operands from the operating range stays within
/// `PROD_RANGE_BITS` after scaling, so it always fits in an `i128`.
pub proof fn lemma_fx_mul_range(a: int, b: int)
    requires
        in_range(a),
        in_range(b),
    ensures
        -(PROD_RANGE_BITS as int) <= fx_mul(a, b) <= PROD_RANGE_BITS as int,
{
    let r = RANGE_BITS as int;
    assert(-(r * r) <= a * b <= r * r) by (nonlinear_arith)
        requires
            -r <= a <= r,
            -r <= b <= r,
    ;
    vstd::arithmetic::div_mod::lemma_div_is_ordered(-(r * r), a * b, FRAC_SCALE as int);
    vstd::arithmetic::div_mod::lemma_div_is_ordered(a * b, r * r, FRAC_SCALE as int);
}

/// General bound for a fixed-point product: operand bounds multiply and are
/// scaled down with the same rounding as the product itself.
pub proof fn lemma_fx_mul_bounds(a: int, b: int, bound_a: int, bound_b: int)
    requires
        -bound_a <= a <= bound_a,
        -bound_b <= b <= bound_b,
        0 <= bound_a,
        0 <= bound_b,
    ensures
        (-(bound_a * bound_b)) / (FRAC_SCALE as int) <= fx_mul(a, b)
            <= (bound_a * bound_b) / (FRAC_SCALE as int),
{
    assert(-(bound_a * bound_b) <= a * b <= bound_a * bound_b) by (nonlinear_arith)
        requires
            -bound_a <= a <= bound_a,
            -bound_b <= b <= bound_b,
            0 <= bound_a,
            0 <= bound_b,
    ;
    vstd::arithmetic::div_mod::lemma_div_is_ordered(
        -(bound_a * bound_b),
        a * b,
        FRAC_SCALE as int,
    );
    vstd::arithmetic::div_mod::lemma_div_is_ordered(a * b, bound_a * bound_b, FRAC_SCALE as int);
}

/// Multiplying by one is exact.
pub proof fn lemma_fx_mul_one(a: int)
    ensures
        fx_mul(a, ONE_BITS as int) == a,
        fx_mul(ONE_BITS as int, a) == a,
{
    let s = FRAC_SCALE as int;
    assert(a * s == s * a) by (nonlinear_arith);
    vstd::arithmetic::div_mod::lemma_div_multiples_vanish(a, s);
}

/// Multiplying by zero is zero.
pub proof fn lemma_fx_mul_zero(a: int)
    ensures
        fx_mul(a, 0) == 0,
        fx_mul(0, a) == 0,
{
    assert(a * 0 == 0) by (nonlinear_arith);
    assert(0 * a == 0) by (nonlinear_arith);
}

/// Negating both operands leaves the product unchanged.
pub proof fn lemma_fx_mul_neg_neg(a: int, b: int)
    ensures
        fx_mul(-a, -b) == fx_mul(a, b),
{
    assert((-a) * (-b) == a * b) by (nonlinear_arith);
}

/// A square scaled down is non-negative.
pub proof fn lemma_fx_square_nonneg(a: int)
    ensures
        fx_mul(a, a) >= 0,
{
    assert(a * a >= 0) by (nonlinear_arith);
    vstd::arithmetic::div_mod::lemma_div_is_ordered(0, a * a, FRAC_SCALE as int);
}

/// Dividing by one is exact.
pub proof fn lemma_fx_div_one(a: int)
    ensures
        fx_div(a, ONE_BITS as int) == a,
{
    let s = FRAC_SCALE as int;
    if a >= 0 {
        assert(a * s == s * a) by (nonlinear_arith);
        vstd::arithmetic::div_mod::lemma_div_multiples_vanish(a, s);
    } else {
        assert(-(a * s) == s * (-a)) by (nonlinear_arith);
        vstd::arithmetic::div_mod::lemma_div_multiples_vanish(-a, s);
    }
}

/// Multiplying by a whole number `c` times one is exact: the scaled product
/// of `c * 2^32` with `x` is exactly `c * x`.
pub proof fn lemma_fx_mul_whole(c: int, x: int)
    ensures
        fx_mul(c * (FRAC_SCALE as int), x) == c * x,
{
    let s = FRAC_SCALE as int;
    assert((c * s) * x == s * (c * x)) by (nonlinear_arith);
    vstd::arithmetic::div_mod::lemma_div_multiples_vanish(c * x, s);
}

/// Scaling by minus one half in fixed point is the floor of minus half the
/// value.
pub proof fn lemma_fx_mul_neg_half(w: int)
    ensures
        fx_mul(w, -(HALF_BITS as int)) == (-w) / 2,
{
    let half = HALF_BITS as int;
    let scale = FRAC_SCALE as int;
    let q = (-w) / 2;
    let r = (-w) % 2;
    vstd::arithmetic::div_mod::lemma_fundamental_div_mod(-w, 2);
    vstd::arithmetic::div_mod::lemma_mod_bound(-w, 2);
    assert(w * (-half) == scale * q + half * r) by (nonlinear_arith)
        requires
            -w == 2 * q + r,
            half == 2147483648,
            scale == 4294967296,
    ;
    vstd::arithmetic::div_mod::lemma_fundamental_div_mod_converse(w * (-half), scale, q, half * r);
}

/// The integer square root of `n`, rounded down, is unique: two integers
/// whose squares both bracket `n` are equal.
pub proof fn lemma_sqrt_floor_unique(n: int, r1: int, r2: int)
    requires
        is_sqrt_floor(n, r1),
        is_sqrt_floor(n, r2),
    ensures
        r1 == r2,
{
    if r1 < r2 {
        assert(r1 + 1 <= r2);
        assert((r1 + 1) * (r1 + 1) <= r2 * r2) by (nonlinear_arith)
            requires
                0 <= r1 + 1 <= r2,
        ;
    }
    if r2 < r1 {
        assert(r2 + 1 <= r1);
        assert((r2 + 1) * (r2 + 1) <= r1 * r1) by (nonlinear_arith)
            requires
                0 <= r2 + 1 <= r1,
        ;
    }
}

} // verus!
