use space::number::{Number, FRAC_SCALE, ONE_BITS};
use space::{Camera, Point, Transform, Vector3};

/// `pi / 2` in fixed-point bits, rounded down.
const HALF_PI_BITS: i128 = 6746518852;

fn num(n: i64) -> Number {
    Number::from_num(n)
}

fn vec(x: i64, y: i64, z: i64) -> Vector3 {
    Vector3::new(num(x), num(y), num(z))
}

fn motor_bits(t: Transform) -> [i128; 8] {
    [
        t.s.to_bits(),
        t.e12.to_bits(),
        t.e13.to_bits(),
        t.e23.to_bits(),
        t.e01.to_bits(),
        t.e02.to_bits(),
        t.e03.to_bits(),
        t.e0123.to_bits(),
    ]
}

fn motor_close(a: Transform, b: Transform, tol: i128) -> bool {
    motor_bits(a)
        .iter()
        .zip(motor_bits(b).iter())
        .all(|(x, y)| (x - y).abs() <= tol)
}

fn vec_close(a: Vector3, b: Vector3, tol: i128) -> bool {
    (a.x.to_bits() - b.x.to_bits()).abs() <= tol
        && (a.y.to_bits() - b.y.to_bits()).abs() <= tol
        && (a.z.to_bits() - b.z.to_bits()).abs() <= tol
}

/// A generic unit-norm motor mixing rotation and translation.
fn sample_motor() -> Transform {
    Transform::rotation_xy(Number::from_bits(1234567890))
        .apply(Transform::translation(vec(3, -4, 5)))
}

#[test]
fn identity_fields() {
    let id = Transform::identity();
    assert_eq!(motor_bits(id), [ONE_BITS, 0, 0, 0, 0, 0, 0, 0]);
    let p = Point::identity();
    assert_eq!(p.e012.to_bits(), 0);
    assert_eq!(p.e013.to_bits(), 0);
    assert_eq!(p.e023.to_bits(), 0);
    assert_eq!(p.e123.to_bits(), 0);
}

#[test]
fn translation_fields() {
    let t = Transform::translation(vec(2, -4, 6));
    assert_eq!(
        motor_bits(t),
        [ONE_BITS, 0, 0, 0, -FRAC_SCALE, 2 * FRAC_SCALE, -3 * FRAC_SCALE, 0]
    );
}

#[test]
fn rotation_constructors_use_half_angles() {
    let r = Transform::rotation_xy(Number::from_bits(HALF_PI_BITS));
    // cos(pi/4) == sin(pi/4) == sqrt(2)/2
    let root_half = 3037000500i128;
    assert!((r.s.to_bits() - root_half).abs() <= 16);
    assert!((r.e12.to_bits() - root_half).abs() <= 16);
    assert_eq!(r.e13.to_bits(), 0);
    assert_eq!(r.e23.to_bits(), 0);
    let rxz = Transform::rotation_xz(Number::from_bits(HALF_PI_BITS));
    assert!((rxz.e13.to_bits() - root_half).abs() <= 16);
    assert_eq!(rxz.e12.to_bits(), 0);
    let ryz = Transform::rotation_yz(Number::from_bits(HALF_PI_BITS));
    assert!((ryz.e23.to_bits() - root_half).abs() <= 16);
    assert_eq!(ryz.e0123.to_bits(), 0);
}

#[test]
fn identity_law_is_exact() {
    let t = sample_motor();
    assert_eq!(motor_bits(t.apply(Transform::identity())), motor_bits(t));
    assert_eq!(motor_bits(Transform::identity().apply(t)), motor_bits(t));
}

#[test]
fn inverse_law_on_unit_motors() {
    let t = sample_motor().normalized();
    let product = t.apply(t.inverse());
    let b = motor_bits(product);
    assert!((b[0] - ONE_BITS).abs() <= 8, "scalar part {} is not one", b[0]);
    for c in &b[1..] {
        assert!(c.abs() <= 8, "component {} is not zero", c);
    }
}

#[test]
fn inverse_negates_only_bivectors() {
    let t = sample_motor();
    let i = t.inverse();
    assert_eq!(i.s.to_bits(), t.s.to_bits());
    assert_eq!(i.e12.to_bits(), -t.e12.to_bits());
    assert_eq!(i.e13.to_bits(), -t.e13.to_bits());
    assert_eq!(i.e23.to_bits(), -t.e23.to_bits());
    assert_eq!(i.e01.to_bits(), -t.e01.to_bits());
    assert_eq!(i.e02.to_bits(), -t.e02.to_bits());
    assert_eq!(i.e03.to_bits(), -t.e03.to_bits());
    assert_eq!(i.e0123.to_bits(), t.e0123.to_bits());
}

#[test]
fn associativity_within_rounding() {
    let a = Transform::rotation_xy(Number::from_bits(900000000));
    let b = Transform::translation(vec(1, 2, 3));
    let c = Transform::rotation_xz(Number::from_bits(-400000000));
    let left = a.apply(b).apply(c);
    let right = a.apply(b.apply(c));
    assert!(motor_close(left, right, 8));
}

#[test]
fn translation_additivity() {
    let u = vec(3, 5, -7);
    let v = vec(10, -20, 31);
    let composed = Transform::translation(u).apply(Transform::translation(v));
    let direct = Transform::translation(vec(13, -15, 24));
    assert!(motor_close(composed, direct, 1));
    // odd offsets hit the one-bit rounding case
    let a = Transform::translation(Vector3::new(
        Number::from_bits(1),
        Number::zero(),
        Number::zero(),
    ));
    let both = a.apply(a);
    let sum = Transform::translation(Vector3::new(
        Number::from_bits(2),
        Number::zero(),
        Number::zero(),
    ));
    assert!(motor_close(both, sum, 1));
}

#[test]
fn rotation_additivity() {
    let a = Number::from_bits(1000000000);
    let b = Number::from_bits(2000000000);
    let composed = Transform::rotation_xy(a).apply(Transform::rotation_xy(b));
    let direct = Transform::rotation_xy(a.add(b));
    assert!(motor_close(composed, direct, 8));
}

#[test]
fn pre_apply_swaps_operands() {
    let a = sample_motor();
    let b = Transform::rotation_yz(Number::from_bits(777777777));
    assert_eq!(motor_bits(a.pre_apply(b)), motor_bits(b.apply(a)));
}

#[test]
fn magnitude_of_unit_motors() {
    assert_eq!(Transform::identity().magnitude_squared().to_bits(), ONE_BITS);
    assert_eq!(Transform::identity().magnitude().to_bits(), ONE_BITS);
    let t = Transform::translation(vec(9, 9, 9));
    assert_eq!(t.magnitude_squared().to_bits(), ONE_BITS);
    let r = Transform::rotation_xy(Number::from_bits(987654321));
    let msq = r.magnitude_squared().to_bits();
    assert!(ONE_BITS - 2 <= msq && msq <= ONE_BITS);
}

#[test]
fn rotation_constructors_are_near_unit() {
    let angles: [i128; 6] = [0, 1, 6746518852, 1234567890, -31415926535, 999999999999];
    for bits in angles {
        let a = Number::from_bits(bits);
        for r in [
            Transform::rotation_xy(a),
            Transform::rotation_xz(a),
            Transform::rotation_yz(a),
        ] {
            let msq = r.magnitude_squared().to_bits();
            assert!(
                ONE_BITS - 2 <= msq && msq <= ONE_BITS,
                "rotor squared magnitude {msq} is not within two bits of one"
            );
        }
    }
}

#[test]
fn normalization_idempotence_and_unit_magnitude() {
    let t = sample_motor().apply(sample_motor());
    let n1 = t.normalized();
    let n2 = n1.normalized();
    assert!(motor_close(n1, n2, 4));
    assert!((n1.magnitude().to_bits() - ONE_BITS).abs() <= 4);
    // normalizing the identity is exact
    let id = Transform::identity();
    assert_eq!(motor_bits(id.normalized()), motor_bits(id));
}

#[test]
fn point_round_trip_is_exact() {
    let samples = [
        vec(1, 2, 3),
        vec(-5, 0, 17),
        Vector3::new(
            Number::from_bits(123456789),
            Number::from_bits(-987654321),
            Number::from_bits(31415926535),
        ),
    ];
    for v in samples {
        let back = Vector3::from(Point::from(v));
        assert_eq!(back.x.to_bits(), v.x.to_bits());
        assert_eq!(back.y.to_bits(), v.y.to_bits());
        assert_eq!(back.z.to_bits(), v.z.to_bits());
    }
}

#[test]
fn point_embedding_convention() {
    let p = Point::from(vec(1, 2, 3));
    assert_eq!(p.e012.to_bits(), 3 * FRAC_SCALE);
    assert_eq!(p.e013.to_bits(), -2 * FRAC_SCALE);
    assert_eq!(p.e023.to_bits(), FRAC_SCALE);
    assert_eq!(p.e123.to_bits(), ONE_BITS);
}

#[test]
fn sandwich_rotates_a_quarter_turn() {
    let tol = 4096; // about 1e-6 in represented value
    let rot = Transform::rotation_xy(Number::from_bits(HALF_PI_BITS));
    let moved = Vector3::from(Point::from(vec(1, 0, 0)).transform(rot));
    assert!(vec_close(moved, vec(0, 1, 0), tol));
}

#[test]
fn sandwich_translates() {
    let tol = 4096;
    let t = Transform::translation(vec(0, 0, 5));
    let moved = Vector3::from(Point::from(vec(0, 0, 0)).transform(t));
    assert!(vec_close(moved, vec(0, 0, 5), tol));
}

#[test]
fn composition_order_matters() {
    let rot = Transform::rotation_xy(Number::from_bits(HALF_PI_BITS));
    let tr = Transform::translation(vec(1, 0, 0));
    let rot_then = rot.apply(tr);
    let tr_then = tr.apply(rot);
    let origin = Point::from(vec(0, 0, 0));
    let a = Vector3::from(origin.transform(rot_then));
    let b = Vector3::from(origin.transform(tr_then));
    // one moves the origin to (1, 0, 0), the other to (0, 1, 0)
    assert!(vec_close(a, vec(1, 0, 0), 4096));
    assert!(vec_close(b, vec(0, 1, 0), 4096));
    assert!(!vec_close(a, b, FRAC_SCALE / 2));
}

#[test]
fn camera_holds_a_pose() {
    let mut camera = Camera { transform: Transform::identity() };
    camera.transform = camera
        .transform
        .pre_apply(Transform::rotation_xz(Number::from_bits(44444444)))
        .normalized();
    let b = motor_bits(camera.transform);
    assert!((b[0] - ONE_BITS).abs() <= 70000000);
    assert_eq!(b[1], 0);
}
