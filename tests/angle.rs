use angle::Angle;
use float_cmp::ApproxEq;
use std::f32::consts::PI;
use std::f32::EPSILON;

fn close(a: Angle<f32>, b: Angle<f32>) -> bool {
    a.as_radians().approx_eq(b.as_radians(), (2.0 * EPSILON, 2))
}

#[test]
fn test_radians() {
    let f: f32 = 1.234;
    let a = Angle::from_radians(f);
    assert_eq!(a.as_radians(), f);
}

#[test]
fn test_degrees() {
    let f: f32 = 1.234;
    let a = Angle::from_degrees(f);
    assert_eq!(a.as_degrees(), f);
}

#[test]
fn test_cycles() {
    let f: f32 = 1.234;
    let a = Angle::from_cycles(f);
    assert_eq!(a.as_cycles(), f);
}

#[test]
fn test_relations() {
    let h1 = Angle::from_radians(PI);
    let h2 = Angle::from_degrees(180.0);
    let h3 = Angle::from_cycles(0.5);
    assert!(close(h1, h2));
    assert!(close(h1, h3));
    assert!(close(h2, h3));
}

#[test]
fn test_assignops() {
    let full = Angle::from_cycles(1.0);
    let mut h1 = Angle::from_radians(PI);
    let h2 = Angle::from_degrees(180.0);
    h1.add_assign(h2);
    assert!(close(h1, full));
}

#[test]
fn test_cgmath_conversion() {
    let x: Angle<f32> = Angle::from_radians(PI);
    let r: cgmath::Rad<f32> = x.into();
    let y: Angle<f32> = From::from(r);
    assert_eq!(x, y);
}

#[test]
fn test_normalize() {
    let mut x: Angle<f32> = Angle::from_degrees(-10.0);
    x.normalize_as_positive();
    println!("{:?}", x);
    assert!(close(x, Angle::from_degrees(350.0)));

    let mut x: Angle<f32> = Angle::from_radians(2.0 * PI);
    x.normalize_around_zero();
    assert!(close(x, Angle::zero()));
}
