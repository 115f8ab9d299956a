use space::number::{Number, FRAC_SCALE, HALF_BITS, ONE_BITS};
use space::trig::{tau, TAU_BITS};
use space::sin_cos;

type Fx = fixed::FixedI128<fixed::types::extra::U32>;

fn bits(n: Number) -> i128 {
    n.to_bits()
}

#[test]
fn constants_round_trip() {
    assert_eq!(bits(Number::zero()), 0);
    assert_eq!(bits(Number::one()), ONE_BITS);
    assert_eq!(bits(Number::from_num(5)), 5 * FRAC_SCALE);
    assert_eq!(bits(Number::from_num(-3)), -3 * FRAC_SCALE);
    assert_eq!(bits(Number::from_bits(1234567)), 1234567);
    assert_eq!(Number::from_bits(42).bits, 42);
}

#[test]
fn tau_matches_fixed_crate() {
    assert_eq!(tau().to_bits(), Fx::TAU.to_bits());
    assert_eq!(TAU_BITS, Fx::TAU.to_bits());
}

#[test]
fn add_sub_neg_exact() {
    let a = Number::from_num(7);
    let b = Number::from_bits(ONE_BITS / 2);
    assert_eq!(bits(a.add(b)), 7 * FRAC_SCALE + HALF_BITS);
    assert_eq!(bits(a.sub(b)), 7 * FRAC_SCALE - HALF_BITS);
    assert_eq!(bits(a.neg()), -7 * FRAC_SCALE);
    assert_eq!(bits(Number::from_num(-2).neg()), 2 * FRAC_SCALE);
}

#[test]
fn mul_matches_fixed_crate() {
    let samples: [(i128, i128); 7] = [
        (3 * FRAC_SCALE, 5 * FRAC_SCALE),
        (-3 * FRAC_SCALE, 5 * FRAC_SCALE),
        (HALF_BITS, HALF_BITS),
        (-7, 13),
        (123456789, -987654321),
        (-1, -1),
        (0, 999999),
    ];
    for (a, b) in samples {
        let ours = Number::from_bits(a).mul(Number::from_bits(b)).to_bits();
        let theirs = (Fx::from_bits(a) * Fx::from_bits(b)).to_bits();
        assert_eq!(ours, theirs);
    }
    // one point with a known exact value: 1.5 * 2 == 3
    let one_and_half = Number::from_bits(ONE_BITS + HALF_BITS);
    assert_eq!(bits(one_and_half.mul(Number::from_num(2))), 3 * FRAC_SCALE);
}

#[test]
fn div_matches_fixed_crate() {
    let samples: [(i128, i128); 6] = [
        (10 * FRAC_SCALE, 4 * FRAC_SCALE),
        (-10 * FRAC_SCALE, 4 * FRAC_SCALE),
        (10 * FRAC_SCALE, -4 * FRAC_SCALE),
        (1, 3),
        (7 * FRAC_SCALE + 5, 2 * FRAC_SCALE - 3),
        (-99999, 77777),
    ];
    for (a, b) in samples {
        let ours = Number::from_bits(a).div(Number::from_bits(b)).to_bits();
        let theirs = (Fx::from_bits(a) / Fx::from_bits(b)).to_bits();
        assert_eq!(ours, theirs);
    }
    // 10 / 4 == 2.5 exactly
    assert_eq!(
        bits(Number::from_num(10).div(Number::from_num(4))),
        2 * FRAC_SCALE + HALF_BITS
    );
}

#[test]
fn sqrt_matches_fixed_crate() {
    for a in [0i128, 1, 2, FRAC_SCALE, 4 * FRAC_SCALE, 25 * FRAC_SCALE, 987654321987] {
        let ours = Number::from_bits(a).sqrt().to_bits();
        let theirs = Fx::from_bits(a).sqrt().to_bits();
        assert_eq!(ours, theirs);
    }
    assert_eq!(bits(Number::from_num(4).sqrt()), 2 * FRAC_SCALE);
    assert_eq!(bits(Number::from_num(25).sqrt()), 5 * FRAC_SCALE);
}

#[test]
fn recip_matches_fixed_crate() {
    for a in [1i128, -1, 3, FRAC_SCALE, 4 * FRAC_SCALE, -4 * FRAC_SCALE, 777777777] {
        let ours = Number::from_bits(a).recip().to_bits();
        let theirs = Fx::from_bits(a).recip().to_bits();
        assert_eq!(ours, theirs);
    }
    // 1 / 4 == 0.25 exactly
    assert_eq!(bits(Number::from_num(4).recip()), FRAC_SCALE / 4);
    assert_eq!(bits(Number::one().recip()), ONE_BITS);
}

#[test]
fn sin_cos_of_zero_is_exact() {
    let (s, c) = sin_cos(Number::zero());
    assert_eq!(bits(s), 0);
    assert_eq!(bits(c), ONE_BITS);
}

#[test]
fn sin_cos_tracks_the_mathematical_functions() {
    let tol = 64i128; // about 1.5e-8 in represented value
    let angles: [f64; 9] = [
        0.0,
        0.5,
        1.0,
        std::f64::consts::FRAC_PI_2,
        std::f64::consts::PI,
        4.0,
        5.5,
        -1.3,
        7.9,
    ];
    for a in angles {
        let x = Number::from_bits((a * FRAC_SCALE as f64).round() as i128);
        let (s, c) = sin_cos(x);
        let s_true = (a.sin() * FRAC_SCALE as f64).round() as i128;
        let c_true = (a.cos() * FRAC_SCALE as f64).round() as i128;
        assert!((bits(s) - s_true).abs() <= tol, "sin({a}) off by {}", bits(s) - s_true);
        assert!((bits(c) - c_true).abs() <= tol, "cos({a}) off by {}", bits(c) - c_true);
    }
}

#[test]
fn sine_cosine_stay_on_the_unit_circle() {
    let angles: [i128; 10] = [
        6746518845, // just below pi/2, where an unclamped series would pass one
        0,
        1,
        3373259426, // the octant boundary
        3373259427,
        6746518852,
        13493037704,
        12345678901,
        -998877665544,
        26986075408,
    ];
    for bits in angles {
        let (s, c) = sin_cos(Number::from_bits(bits));
        let (sb, cb) = (s.to_bits(), c.to_bits());
        assert!(sb.abs() <= ONE_BITS, "sine {sb} leaves the unit interval");
        assert!(cb.abs() <= ONE_BITS, "cosine {cb} leaves the unit interval");
        let norm = sb * sb / FRAC_SCALE + cb * cb / FRAC_SCALE;
        assert!(ONE_BITS - 2 <= norm && norm <= ONE_BITS, "norm {norm} off the unit circle");
    }
}

#[test]
fn sin_cos_wraps_full_turns() {
    let x = Number::from_bits(123456789);
    let turn = tau();
    let (s1, c1) = sin_cos(x);
    let (s2, c2) = sin_cos(x.add(turn));
    let (s3, c3) = sin_cos(x.sub(turn));
    assert_eq!(bits(s1), bits(s2));
    assert_eq!(bits(c1), bits(c2));
    assert_eq!(bits(s1), bits(s3));
    assert_eq!(bits(c1), bits(c3));
}
