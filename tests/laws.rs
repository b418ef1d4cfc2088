use angle::units::{
    cycles_to_radians, degrees_to_radians, radians_to_cycles, radians_to_degrees,
    wrap_around_zero, wrap_positive,
};
use angle::Angle;
use std::f64::consts::PI;

fn near(a: f64, b: f64) -> bool {
    (a - b).abs() <= 4.0 * f64::EPSILON * a.abs().max(b.abs()).max(1.0)
}

#[test]
fn new_constructors_match_from_constructors() {
    assert_eq!(Angle::new_radians(0.75_f64), Angle::from_radians(0.75_f64));
    assert_eq!(Angle::new_degrees(33.0_f64), Angle::from_degrees(33.0_f64));
    assert_eq!(Angle::new_cycles(0.3_f64), Angle::from_cycles(0.3_f64));
}

#[test]
fn radians_round_trip_is_bit_exact() {
    for r in [0.0_f64, -0.0, 1e-300, -7.25, 123456.789, f64::MAX, f64::MIN_POSITIVE] {
        let back = Angle::from_radians(r).as_radians();
        assert_eq!(back.to_bits(), r.to_bits());
    }
}

#[test]
fn degrees_and_cycles_round_trip_closely() {
    for d in [0.0_f64, 1.0, -45.0, 90.0, 359.5, 1234.5678, -1e6] {
        assert!(near(Angle::from_degrees(d).as_degrees(), d));
        assert!(near(Angle::from_cycles(d).as_cycles(), d));
    }
}

#[test]
fn known_unit_values() {
    assert_eq!(Angle::from_degrees(180.0_f64).as_radians(), PI);
    assert_eq!(Angle::from_cycles(0.5_f64).as_radians(), PI);
    assert_eq!(Angle::from_cycles(1.0_f64).as_radians(), 2.0 * PI);
    assert_eq!(Angle::from_radians(PI).as_degrees(), 180.0);
    assert_eq!(Angle::from_radians(PI).as_cycles(), 0.5);
    assert_eq!(Angle::from_degrees(0.0_f64).as_radians(), 0.0);
}

#[test]
fn normalize_as_positive_lands_in_range_and_is_idempotent() {
    for r in [-10.0 * PI - 0.1, -0.1, 0.0, 1.0, 2.0 * PI, 10.0 * PI, 7.5, -3.0 * PI] {
        let mut a = Angle::from_radians(r);
        a.normalize_as_positive();
        let once = a.as_radians();
        assert!(once >= 0.0 && once < 2.0 * PI, "{} gave {}", r, once);
        a.normalize_as_positive();
        assert_eq!(a.as_radians(), once);
    }
}

#[test]
fn normalize_around_zero_lands_in_range() {
    for r in [-10.0 * PI - 0.1, -0.1, 0.0, 1.0, PI, -PI, 2.0 * PI, 10.0 * PI, 7.5] {
        let mut a = Angle::from_radians(r);
        a.normalize_around_zero();
        let v = a.as_radians();
        assert!(v >= -PI && v < PI, "{} gave {}", r, v);
    }
}

#[test]
fn normalize_negative_degrees() {
    let mut a = Angle::from_degrees(-10.0_f64);
    a.normalize_as_positive();
    assert!(near(a.as_degrees(), 350.0));
    let mut b = Angle::from_degrees(-10.0_f64);
    b.normalize_around_zero();
    assert!((b.as_degrees() + 10.0).abs() <= 1e-12);
}

#[test]
fn normalize_full_turn_around_zero_is_zero() {
    let mut a = Angle::from_radians(2.0 * PI);
    a.normalize_around_zero();
    assert!(a.as_radians().abs() <= 4.0 * f64::EPSILON);
}

#[test]
fn binary_operators_act_on_radians() {
    let a = Angle::from_radians(3.0_f64);
    let b = Angle::from_radians(2.0_f64);
    assert_eq!((a + b).as_radians(), 5.0);
    assert_eq!((a - b).as_radians(), 1.0);
    assert_eq!((a * b).as_radians(), 6.0);
    assert_eq!((a / b).as_radians(), 1.5);
    assert_eq!((a % b).as_radians(), 1.0);
    assert_eq!((a * 4.0).as_radians(), 12.0);
    assert_eq!((a / 4.0).as_radians(), 0.75);
    assert_eq!((-a).as_radians(), -3.0);
}

#[test]
fn compound_assignment_matches_binary_operators() {
    let pairs = [(3.0_f64, 2.0_f64), (-1.5, 0.25), (PI, 180.0), (1e10, -3.0)];
    for (x, y) in pairs {
        let a = Angle::from_radians(x);
        let b = Angle::from_radians(y);
        let mut c = a;
        c.add_assign(b);
        assert_eq!(c, a + b);
        let mut c = a;
        c.sub_assign(b);
        assert_eq!(c, a - b);
        let mut c = a;
        c.mul_assign(b);
        assert_eq!(c, a * b);
        let mut c = a;
        c.div_assign(b);
        assert_eq!(c, a / b);
        let mut c = a;
        c.rem_assign(b);
        assert_eq!(c, a % b);
        let mut c = a;
        c.mul_assign_scalar(y);
        assert_eq!(c, a * y);
        let mut c = a;
        c.div_assign_scalar(y);
        assert_eq!(c, a / y);
    }
}

#[test]
fn sum_of_half_turns_is_a_full_turn() {
    let angles = vec![Angle::from_radians(PI), Angle::from_degrees(180.0_f64)];
    let total = Angle::sum(&angles);
    assert!(near(total.as_radians(), Angle::from_cycles(1.0_f64).as_radians()));
}

#[test]
fn sum_of_nothing_is_zero() {
    let angles: Vec<Angle<f64>> = Vec::new();
    assert!(Angle::sum(&angles).is_zero());
}

#[test]
fn sum_adds_left_to_right() {
    let angles = vec![
        Angle::from_radians(1.0_f64),
        Angle::from_radians(2.0_f64),
        Angle::from_radians(-0.5_f64),
    ];
    assert_eq!(Angle::sum(&angles).as_radians(), 2.5);
}

#[test]
fn identities_and_bounds() {
    assert_eq!(Angle::<f64>::zero().as_radians(), 0.0);
    assert_eq!(Angle::<f64>::one().as_radians(), 1.0);
    assert!(Angle::<f64>::zero().is_zero());
    assert!(!Angle::<f64>::one().is_zero());
    assert!(Angle::<f64>::one().is_one());
    assert!(!Angle::from_radians(2.0 * PI).is_one());
    assert_eq!(Angle::<f64>::min_value().as_radians(), f64::MIN);
    assert_eq!(Angle::<f64>::max_value().as_radians(), f64::MAX);
}

#[test]
fn comparisons_follow_the_radians() {
    let a = Angle::from_radians(1.0_f64);
    let b = Angle::from_radians(2.0_f64);
    assert!(a < b);
    assert!(a != b);
    let nan = Angle::from_radians(f64::NAN);
    assert!(nan != nan);
    assert!(!(nan < a) && !(nan > a));
}

#[test]
fn degree_wise_wraparound_is_not_equality() {
    let a = Angle::from_degrees(359.0_f64);
    let b = Angle::from_degrees(1.0_f64);
    assert!(!near(a.as_radians(), b.as_radians()));
}

#[test]
fn division_by_zero_gives_infinity() {
    let a = Angle::from_radians(1.0_f64);
    assert_eq!((a / 0.0).as_radians(), f64::INFINITY);
    assert!((Angle::from_radians(0.0_f64) / Angle::from_radians(0.0)).as_radians().is_nan());
}

#[test]
fn rad_round_trip_is_bit_exact() {
    for r in [PI, -0.0, 1e-310, 42.0_f64] {
        let a = Angle::from_radians(r);
        let rad: cgmath::Rad<f64> = a.into();
        assert_eq!(rad.0.to_bits(), r.to_bits());
        let back: Angle<f64> = Angle::from(rad);
        assert_eq!(back.as_radians().to_bits(), r.to_bits());
    }
}

#[test]
fn deg_bridge_goes_through_degrees() {
    let a = Angle::from_deg(cgmath::Deg(180.0_f64));
    assert_eq!(a.as_radians(), PI);
    let d = Angle::from_radians(PI).into_deg();
    assert_eq!(d.0, 180.0);
}

#[test]
fn unit_helpers_compute_their_formulas() {
    assert_eq!(degrees_to_radians(90.0_f64, 2.0, 180.0), 1.0);
    assert_eq!(radians_to_degrees(1.0_f64, 2.0, 180.0), 90.0);
    assert_eq!(cycles_to_radians(0.25_f64, 2.0, 4.0), 2.0);
    assert_eq!(radians_to_cycles(2.0_f64, 2.0, 4.0), 0.25);
}

#[test]
fn wrap_helpers_use_the_floored_remainder() {
    assert_eq!(wrap_positive(-1.0_f64, 8.0), 7.0);
    assert_eq!(wrap_positive(17.0_f64, 8.0), 1.0);
    assert_eq!(wrap_positive(-17.0_f64, 8.0), 7.0);
    assert_eq!(wrap_positive(8.0_f64, 8.0), 0.0);
    assert_eq!(wrap_around_zero(5.0_f64, 8.0, 4.0), -3.0);
    assert_eq!(wrap_around_zero(4.0_f64, 8.0, 4.0), -4.0);
    assert_eq!(wrap_around_zero(3.0_f64, 8.0, 4.0), 3.0);
    assert_eq!(wrap_around_zero(-5.0_f64, 8.0, 4.0), 3.0);
}
