//! Three-component vectors over the fixed-point [`Number`] type.
//!
//! A `Vector3` is a pure value type with component-wise arithmetic between
//! two vectors and between a vector and a scalar in both operand orders,
//! in-place variants of all of these, and dot product and length.  Each
//! operation is a named method whose contract states the result exactly over
//! the bit-level model; division follows the fail-fast policy of
//! [`Number::div`] and rejects zero divisors up front.

use crate::number::{
    fx_div, fx_mul, fx_sqrt, in_range, is_sqrt_floor, lemma_fx_mul_range,
    lemma_fx_square_nonneg, Number, FRAC_SCALE, ONE_BITS,
};
use vstd::prelude::*;

verus! {

/// The mathematical model of a [`Vector3`]: its three bit patterns.
pub struct Vec3V {
    pub x: int,
    pub y: int,
    pub z: int,
}

/// A 3-component vector of fixed-point numbers.
#[derive(Clone, Copy, Debug, PartialEq, Eq, Structural)]
pub struct Vector3 {
    pub x: Number,
    pub y: Number,
    pub z: Number,
}

impl View for Vector3 {
    type V = Vec3V;

    open spec fn view(&self) -> Vec3V {
        Vec3V { x: self.x@, y: self.y@, z: self.z@ }
    }
}

/// All three components lie in the operating range.
pub open spec fn vec3_in_range(v: Vec3V) -> bool {
    &&& in_range(v.x)
    &&& in_range(v.y)
    &&& in_range(v.z)
}

/// The fixed-point dot product of two vectors: the three scaled products,
/// each rounded toward negative infinity, summed exactly.
pub open spec fn spec_dot(a: Vec3V, b: Vec3V) -> int {
    fx_mul(a.x, b.x) + fx_mul(a.y, b.y) + fx_mul(a.z, b.z)
}

impl Vector3 {
    /// The vector with the given components.
    pub fn new(x: Number, y: Number, z: Number) -> (r: Vector3)
        ensures
            r@ == (Vec3V { x: x@, y: y@, z: z@ }),
    {
        Vector3 { x, y, z }
    }

    /// The zero vector.
    pub fn zero() -> (r: Vector3)
        ensures
            r@ == (Vec3V { x: 0, y: 0, z: 0 }),
    {
        Vector3 { x: Number::zero(), y: Number::zero(), z: Number::zero() }
    }

    /// The all-ones vector.
    pub fn one() -> (r: Vector3)
        ensures
            r@ == (Vec3V { x: ONE_BITS as int, y: ONE_BITS as int, z: ONE_BITS as int }),
    {
        Vector3 { x: Number::one(), y: Number::one(), z: Number::one() }
    }

    /// The unit vector along the x axis.
    pub fn unit_x() -> (r: Vector3)
        ensures
            r@ == (Vec3V { x: ONE_BITS as int, y: 0, z: 0 }),
    {
        Vector3 { x: Number::one(), y: Number::zero(), z: Number::zero() }
    }

    /// The unit vector along the y axis.
    pub fn unit_y() -> (r: Vector3)
        ensures
            r@ == (Vec3V { x: 0, y: ONE_BITS as int, z: 0 }),
    {
        Vector3 { x: Number::zero(), y: Number::one(), z: Number::zero() }
    }

    /// The unit vector along the z axis.
    pub fn unit_z() -> (r: Vector3)
        ensures
            r@ == (Vec3V { x: 0, y: 0, z: ONE_BITS as int }),
    {
        Vector3 { x: Number::zero(), y: Number::zero(), z: Number::one() }
    }

    /// The fixed-point dot product.
    pub fn dot(self, other: Vector3) -> (r: Number)
        requires
            vec3_in_range(self@),
            vec3_in_range(other@),
        ensures
            r@ == spec_dot(self@, other@),
    {
        proof {
            lemma_fx_mul_range(self@.x, other@.x);
            lemma_fx_mul_range(self@.y, other@.y);
            lemma_fx_mul_range(self@.z, other@.z);
        }
        self.x.mul(other.x).add(self.y.mul(other.y)).add(self.z.mul(other.z))
    }

    /// The squared length: the dot product of the vector with itself, which
    /// is never negative.
    pub fn sqr_length(self) -> (r: Number)
        requires
            vec3_in_range(self@),
        ensures
            r@ == spec_dot(self@, self@),
            r@ >= 0,
    {
        proof {
            lemma_fx_square_nonneg(self@.x);
            lemma_fx_square_nonneg(self@.y);
            lemma_fx_square_nonneg(self@.z);
        }
        self.dot(self)
    }

    /// The length: the fixed-point square root of the squared length,
    /// rounded down.
    pub fn length(self) -> (r: Number)
        requires
            vec3_in_range(self@),
        ensures
            r@ == fx_sqrt(spec_dot(self@, self@)),
            is_sqrt_floor(spec_dot(self@, self@) * (FRAC_SCALE as int), r@),
    {
        self.sqr_length().sqrt()
    }

    /// Component-wise negation.
    pub fn neg(self) -> (r: Vector3)
        requires
            self@.x != i128::MIN,
            self@.y != i128::MIN,
            self@.z != i128::MIN,
        ensures
            r@ == (Vec3V { x: -self@.x, y: -self@.y, z: -self@.z }),
    {
        Vector3 { x: self.x.neg(), y: self.y.neg(), z: self.z.neg() }
    }

    /// Component-wise vector addition.
    pub fn add(self, rhs: Vector3) -> (r: Vector3)
        requires
            i128::MIN <= self@.x + rhs@.x <= i128::MAX,
            i128::MIN <= self@.y + rhs@.y <= i128::MAX,
            i128::MIN <= self@.z + rhs@.z <= i128::MAX,
        ensures
            r@ == (Vec3V { x: self@.x + rhs@.x, y: self@.y + rhs@.y, z: self@.z + rhs@.z }),
    {
        Vector3 { x: self.x.add(rhs.x), y: self.y.add(rhs.y), z: self.z.add(rhs.z) }
    }

    /// Component-wise vector subtraction.
    pub fn sub(self, rhs: Vector3) -> (r: Vector3)
        requires
            i128::MIN <= self@.x - rhs@.x <= i128::MAX,
            i128::MIN <= self@.y - rhs@.y <= i128::MAX,
            i128::MIN <= self@.z - rhs@.z <= i128::MAX,
        ensures
            r@ == (Vec3V { x: self@.x - rhs@.x, y: self@.y - rhs@.y, z: self@.z - rhs@.z }),
    {
        Vector3 { x: self.x.sub(rhs.x), y: self.y.sub(rhs.y), z: self.z.sub(rhs.z) }
    }

    /// Component-wise vector multiplication.
    pub fn mul(self, rhs: Vector3) -> (r: Vector3)
        requires
            vec3_in_range(self@),
            vec3_in_range(rhs@),
        ensures
            r@ == (Vec3V {
                x: fx_mul(self@.x, rhs@.x),
                y: fx_mul(self@.y, rhs@.y),
                z: fx_mul(self@.z, rhs@.z),
            }),
    {
        proof {
            lemma_fx_mul_range(self@.x, rhs@.x);
            lemma_fx_mul_range(self@.y, rhs@.y);
            lemma_fx_mul_range(self@.z, rhs@.z);
        }
        Vector3 { x: self.x.mul(rhs.x), y: self.y.mul(rhs.y), z: self.z.mul(rhs.z) }
    }

    /// Component-wise vector division.  Every divisor component must be
    /// non-zero.
    pub fn div(self, rhs: Vector3) -> (r: Vector3)
        requires
            rhs@.x != 0,
            rhs@.y != 0,
            rhs@.z != 0,
            i128::MIN <= fx_div(self@.x, rhs@.x) <= i128::MAX,
            i128::MIN <= fx_div(self@.y, rhs@.y) <= i128::MAX,
            i128::MIN <= fx_div(self@.z, rhs@.z) <= i128::MAX,
        ensures
            r@ == (Vec3V {
                x: fx_div(self@.x, rhs@.x),
                y: fx_div(self@.y, rhs@.y),
                z: fx_div(self@.z, rhs@.z),
            }),
    {
        Vector3 { x: self.x.div(rhs.x), y: self.y.div(rhs.y), z: self.z.div(rhs.z) }
    }

    /// Adding a scalar to every component.
    pub fn add_num(self, rhs: Number) -> (r: Vector3)
        requires
            i128::MIN <= self@.x + rhs@ <= i128::MAX,
            i128::MIN <= self@.y + rhs@ <= i128::MAX,
            i128::MIN <= self@.z + rhs@ <= i128::MAX,
        ensures
            r@ == (Vec3V { x: self@.x + rhs@, y: self@.y + rhs@, z: self@.z + rhs@ }),
    {
        Vector3 { x: self.x.add(rhs), y: self.y.add(rhs), z: self.z.add(rhs) }
    }

    /// Subtracting a scalar from every component.
    pub fn sub_num(self, rhs: Number) -> (r: Vector3)
        requires
            i128::MIN <= self@.x - rhs@ <= i128::MAX,
            i128::MIN <= self@.y - rhs@ <= i128::MAX,
            i128::MIN <= self@.z - rhs@ <= i128::MAX,
        ensures
            r@ == (Vec3V { x: self@.x - rhs@, y: self@.y - rhs@, z: self@.z - rhs@ }),
    {
        Vector3 { x: self.x.sub(rhs), y: self.y.sub(rhs), z: self.z.sub(rhs) }
    }

    /// Scaling every component by a scalar.
    pub fn mul_num(self, rhs: Number) -> (r: Vector3)
        requires
            vec3_in_range(self@),
            in_range(rhs@),
        ensures
            r@ == (Vec3V {
                x: fx_mul(self@.x, rhs@),
                y: fx_mul(self@.y, rhs@),
                z: fx_mul(self@.z, rhs@),
            }),
    {
        proof {
            lemma_fx_mul_range(self@.x, rhs@);
            lemma_fx_mul_range(self@.y, rhs@);
            lemma_fx_mul_range(self@.z, rhs@);
        }
        Vector3 { x: self.x.mul(rhs), y: self.y.mul(rhs), z: self.z.mul(rhs) }
    }

    /// Dividing every component by a scalar.  The scalar must be non-zero.
    pub fn div_num(self, rhs: Number) -> (r: Vector3)
        requires
            rhs@ != 0,
            i128::MIN <= fx_div(self@.x, rhs@) <= i128::MAX,
            i128::MIN <= fx_div(self@.y, rhs@) <= i128::MAX,
            i128::MIN <= fx_div(self@.z, rhs@) <= i128::MAX,
        ensures
            r@ == (Vec3V {
                x: fx_div(self@.x, rhs@),
                y: fx_div(self@.y, rhs@),
                z: fx_div(self@.z, rhs@),
            }),
    {
        Vector3 { x: self.x.div(rhs), y: self.y.div(rhs), z: self.z.div(rhs) }
    }

    /// In-place vector addition: all three components are updated.
    pub fn add_assign(&mut self, rhs: Vector3)
        requires
            i128::MIN <= old(self)@.x + rhs@.x <= i128::MAX,
            i128::MIN <= old(self)@.y + rhs@.y <= i128::MAX,
            i128::MIN <= old(self)@.z + rhs@.z <= i128::MAX,
        ensures
            final(self)@ == (Vec3V {
                x: old(self)@.x + rhs@.x,
                y: old(self)@.y + rhs@.y,
                z: old(self)@.z + rhs@.z,
            }),
    {
        *self = self.add(rhs);
    }

    /// In-place vector subtraction.
    pub fn sub_assign(&mut self, rhs: Vector3)
        requires
            i128::MIN <= old(self)@.x - rhs@.x <= i128::MAX,
            i128::MIN <= old(self)@.y - rhs@.y <= i128::MAX,
            i128::MIN <= old(self)@.z - rhs@.z <= i128::MAX,
        ensures
            final(self)@ == (Vec3V {
                x: old(self)@.x - rhs@.x,
                y: old(self)@.y - rhs@.y,
                z: old(self)@.z - rhs@.z,
            }),
    {
        *self = self.sub(rhs);
    }

    /// In-place vector multiplication.
    pub fn mul_assign(&mut self, rhs: Vector3)
        requires
            vec3_in_range(old(self)@),
            vec3_in_range(rhs@),
        ensures
            final(self)@ == (Vec3V {
                x: fx_mul(old(self)@.x, rhs@.x),
                y: fx_mul(old(self)@.y, rhs@.y),
                z: fx_mul(old(self)@.z, rhs@.z),
            }),
    {
        *self = self.mul(rhs);
    }

    /// In-place vector division.  Every divisor component must be non-zero.
    pub fn div_assign(&mut self, rhs: Vector3)
        requires
            rhs@.x != 0,
            rhs@.y != 0,
            rhs@.z != 0,
            i128::MIN <= fx_div(old(self)@.x, rhs@.x) <= i128::MAX,
            i128::MIN <= fx_div(old(self)@.y, rhs@.y) <= i128::MAX,
            i128::MIN <= fx_div(old(self)@.z, rhs@.z) <= i128::MAX,
        ensures
            final(self)@ == (Vec3V {
                x: fx_div(old(self)@.x, rhs@.x),
                y: fx_div(old(self)@.y, rhs@.y),
                z: fx_div(old(self)@.z, rhs@.z),
            }),
    {
        *self = self.div(rhs);
    }

    /// In-place scalar addition.
    pub fn add_assign_num(&mut self, rhs: Number)
        requires
            i128::MIN <= old(self)@.x + rhs@ <= i128::MAX,
            i128::MIN <= old(self)@.y + rhs@ <= i128::MAX,
            i128::MIN <= old(self)@.z + rhs@ <= i128::MAX,
        ensures
            final(self)@ == (Vec3V {
                x: old(self)@.x + rhs@,
                y: old(self)@.y + rhs@,
                z: old(self)@.z + rhs@,
            }),
    {
        *self = self.add_num(rhs);
    }

    /// In-place scalar subtraction.
    pub fn sub_assign_num(&mut self, rhs: Number)
        requires
            i128::MIN <= old(self)@.x - rhs@ <= i128::MAX,
            i128::MIN <= old(self)@.y - rhs@ <= i128::MAX,
            i128::MIN <= old(self)@.z - rhs@ <= i128::MAX,
        ensures
            final(self)@ == (Vec3V {
                x: old(self)@.x - rhs@,
                y: old(self)@.y - rhs@,
                z: old(self)@.z - rhs@,
            }),
    {
        *self = self.sub_num(rhs);
    }

    /// In-place scalar multiplication.
    pub fn mul_assign_num(&mut self, rhs: Number)
        requires
            vec3_in_range(old(self)@),
            in_range(rhs@),
        ensures
            final(self)@ == (Vec3V {
                x: fx_mul(old(self)@.x, rhs@),
                y: fx_mul(old(self)@.y, rhs@),
                z: fx_mul(old(self)@.z, rhs@),
            }),
    {
        *self = self.mul_num(rhs);
    }

    /// In-place scalar division.  The scalar must be non-zero.
    pub fn div_assign_num(&mut self, rhs: Number)
        requires
            rhs@ != 0,
            i128::MIN <= fx_div(old(self)@.x, rhs@) <= i128::MAX,
            i128::MIN <= fx_div(old(self)@.y, rhs@) <= i128::MAX,
            i128::MIN <= fx_div(old(self)@.z, rhs@) <= i128::MAX,
        ensures
            final(self)@ == (Vec3V {
                x: fx_div(old(self)@.x, rhs@),
                y: fx_div(old(self)@.y, rhs@),
                z: fx_div(old(self)@.z, rhs@),
            }),
    {
        *self = self.div_num(rhs);
    }
}

impl Number {
    /// Adding this scalar to every component of a vector, with the scalar as
    /// the left operand.
    pub fn add_vec(self, rhs: Vector3) -> (r: Vector3)
        requires
            i128::MIN <= self@ + rhs@.x <= i128::MAX,
            i128::MIN <= self@ + rhs@.y <= i128::MAX,
            i128::MIN <= self@ + rhs@.z <= i128::MAX,
        ensures
            r@ == (Vec3V { x: self@ + rhs@.x, y: self@ + rhs@.y, z: self@ + rhs@.z }),
    {
        Vector3 { x: self.add(rhs.x), y: self.add(rhs.y), z: self.add(rhs.z) }
    }

    /// Subtracting every component of a vector from this scalar.
    pub fn sub_vec(self, rhs: Vector3) -> (r: Vector3)
        requires
            i128::MIN <= self@ - rhs@.x <= i128::MAX,
            i128::MIN <= self@ - rhs@.y <= i128::MAX,
            i128::MIN <= self@ - rhs@.z <= i128::MAX,
        ensures
            r@ == (Vec3V { x: self@ - rhs@.x, y: self@ - rhs@.y, z: self@ - rhs@.z }),
    {
        Vector3 { x: self.sub(rhs.x), y: self.sub(rhs.y), z: self.sub(rhs.z) }
    }

    /// Scaling every component of a vector by this scalar, with the scalar
    /// as the left operand.
    pub fn mul_vec(self, rhs: Vector3) -> (r: Vector3)
        requires
            in_range(self@),
            vec3_in_range(rhs@),
        ensures
            r@ == (Vec3V {
                x: fx_mul(self@, rhs@.x),
                y: fx_mul(self@, rhs@.y),
                z: fx_mul(self@, rhs@.z),
            }),
    {
        proof {
            lemma_fx_mul_range(self@, rhs@.x);
            lemma_fx_mul_range(self@, rhs@.y);
            lemma_fx_mul_range(self@, rhs@.z);
        }
        Vector3 { x: self.mul(rhs.x), y: self.mul(rhs.y), z: self.mul(rhs.z) }
    }

    /// Dividing this scalar by every component of a vector.  Every divisor
    /// component must be non-zero.
    pub fn div_vec(self, rhs: Vector3) -> (r: Vector3)
        requires
            rhs@.x != 0,
            rhs@.y != 0,
            rhs@.z != 0,
            i128::MIN <= fx_div(self@, rhs@.x) <= i128::MAX,
            i128::MIN <= fx_div(self@, rhs@.y) <= i128::MAX,
            i128::MIN <= fx_div(self@, rhs@.z) <= i128::MAX,
        ensures
            r@ == (Vec3V { x: fx_div(self@, rhs@.x), y: fx_div(self@, rhs@.y), z: fx_div(self@, rhs@.z) }),
    {
        Vector3 { x: self.div(rhs.x), y: self.div(rhs.y), z: self.div(rhs.z) }
    }
}

} // verus!
