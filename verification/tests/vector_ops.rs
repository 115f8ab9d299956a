use space::number::{Number, FRAC_SCALE, HALF_BITS, ONE_BITS};
use space::Vector3;

fn num(n: i64) -> Number {
    Number::from_num(n)
}

fn vec(x: i64, y: i64, z: i64) -> Vector3 {
    Vector3::new(num(x), num(y), num(z))
}

fn vbits(v: Vector3) -> (i128, i128, i128) {
    (v.x.to_bits(), v.y.to_bits(), v.z.to_bits())
}

#[test]
fn constructors_and_axes() {
    assert_eq!(vbits(Vector3::zero()), (0, 0, 0));
    assert_eq!(vbits(Vector3::one()), (ONE_BITS, ONE_BITS, ONE_BITS));
    assert_eq!(vbits(Vector3::unit_x()), (ONE_BITS, 0, 0));
    assert_eq!(vbits(Vector3::unit_y()), (0, ONE_BITS, 0));
    assert_eq!(vbits(Vector3::unit_z()), (0, 0, ONE_BITS));
    assert_eq!(vec(1, -2, 3), Vector3::new(num(1), num(-2), num(3)));
}

#[test]
fn componentwise_vector_arithmetic() {
    let a = vec(1, 2, 3);
    let b = vec(10, -20, 30);
    assert_eq!(vbits(a.add(b)), (11 * FRAC_SCALE, -18 * FRAC_SCALE, 33 * FRAC_SCALE));
    assert_eq!(vbits(a.sub(b)), (-9 * FRAC_SCALE, 22 * FRAC_SCALE, -27 * FRAC_SCALE));
    assert_eq!(vbits(a.mul(b)), (10 * FRAC_SCALE, -40 * FRAC_SCALE, 90 * FRAC_SCALE));
    assert_eq!(vbits(b.div(a)), (10 * FRAC_SCALE, -10 * FRAC_SCALE, 10 * FRAC_SCALE));
    assert_eq!(vbits(a.neg()), (-FRAC_SCALE, -2 * FRAC_SCALE, -3 * FRAC_SCALE));
}

#[test]
fn scalar_arithmetic_both_operand_orders() {
    let a = vec(2, -4, 6);
    let s = num(2);
    assert_eq!(vbits(a.add_num(s)), (4 * FRAC_SCALE, -2 * FRAC_SCALE, 8 * FRAC_SCALE));
    assert_eq!(vbits(a.sub_num(s)), (0, -6 * FRAC_SCALE, 4 * FRAC_SCALE));
    assert_eq!(vbits(a.mul_num(s)), (4 * FRAC_SCALE, -8 * FRAC_SCALE, 12 * FRAC_SCALE));
    assert_eq!(vbits(a.div_num(s)), (FRAC_SCALE, -2 * FRAC_SCALE, 3 * FRAC_SCALE));
    assert_eq!(vbits(s.add_vec(a)), (4 * FRAC_SCALE, -2 * FRAC_SCALE, 8 * FRAC_SCALE));
    assert_eq!(vbits(s.sub_vec(a)), (0, 6 * FRAC_SCALE, -4 * FRAC_SCALE));
    assert_eq!(vbits(s.mul_vec(a)), (4 * FRAC_SCALE, -8 * FRAC_SCALE, 12 * FRAC_SCALE));
    assert_eq!(vbits(num(12).div_vec(a)), (6 * FRAC_SCALE, -3 * FRAC_SCALE, 2 * FRAC_SCALE));
}

#[test]
fn in_place_variants_update_all_components() {
    let mut v = vec(1, 2, 3);
    v.add_assign(vec(1, 1, 1));
    assert_eq!(vbits(v), (2 * FRAC_SCALE, 3 * FRAC_SCALE, 4 * FRAC_SCALE));
    v.sub_assign(vec(2, 2, 2));
    assert_eq!(vbits(v), (0, FRAC_SCALE, 2 * FRAC_SCALE));
    v.mul_assign(vec(3, 3, 3));
    assert_eq!(vbits(v), (0, 3 * FRAC_SCALE, 6 * FRAC_SCALE));
    v.div_assign(vec(3, 3, 3));
    assert_eq!(vbits(v), (0, FRAC_SCALE, 2 * FRAC_SCALE));
    v.add_assign_num(num(5));
    assert_eq!(vbits(v), (5 * FRAC_SCALE, 6 * FRAC_SCALE, 7 * FRAC_SCALE));
    v.sub_assign_num(num(5));
    v.mul_assign_num(num(4));
    assert_eq!(vbits(v), (0, 4 * FRAC_SCALE, 8 * FRAC_SCALE));
    v.div_assign_num(num(2));
    assert_eq!(vbits(v), (0, 2 * FRAC_SCALE, 4 * FRAC_SCALE));
}

#[test]
fn dot_and_lengths() {
    let a = vec(1, 2, 3);
    let b = vec(4, -5, 6);
    assert_eq!(a.dot(b).to_bits(), (4 - 10 + 18) * FRAC_SCALE);
    assert_eq!(a.sqr_length().to_bits(), 14 * FRAC_SCALE);
    let p = vec(3, 4, 0);
    assert_eq!(p.sqr_length().to_bits(), 25 * FRAC_SCALE);
    assert_eq!(p.length().to_bits(), 5 * FRAC_SCALE);
    // a fractional length: |(0.5, 0, 0)| == 0.5 exactly
    let h = Vector3::new(Number::from_bits(HALF_BITS), Number::zero(), Number::zero());
    assert_eq!(h.length().to_bits(), HALF_BITS);
}
