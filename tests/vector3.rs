use spatial::coordinates::{Cylindrical, Spherical};
use spatial::vector3::Vector3;

fn up() -> Vector3<f32> {
    Vector3::new(0.0, 0.0, 1.0)
}

fn angle_f32(a: &Vector3<f32>, b: &Vector3<f32>) -> f32 {
    a.angle_cosine(b, a.quick_magnitude().sqrt(), b.quick_magnitude().sqrt()).acos()
}

fn relative_eq(expected: f32, actual: f32, eps: f32) -> bool {
    (expected - actual).abs() <= eps * expected.abs().max(actual.abs())
}

fn close(a: Vector3<f64>, b: Vector3<f64>, tol: f64) -> bool {
    (a.x - b.x).abs() <= tol && (a.y - b.y).abs() <= tol && (a.z - b.z).abs() <= tol
}

#[test]
fn is_positional() {
    let up = up();
    let back = Vector3::new(0.0f32, -1.0, 0.0);
    let forward = Vector3::new(0.0f32, 1.0, 0.0);
    let left = Vector3::new(-1.0f32, 0.0, 0.0);
    let right = Vector3::new(1.0f32, 0.0, 0.0);
    for point in [back, forward, left, right] {
        assert!(relative_eq(std::f32::consts::FRAC_PI_2, angle_f32(&up, &point), f32::EPSILON));
    }
    let down = Vector3::new(0.0f32, 0.0, -1.0);
    assert!(relative_eq(std::f32::consts::PI, angle_f32(&up, &down), f32::EPSILON));
}

#[test]
fn add_commutes_and_inverse_is_origin() {
    let a = Vector3::new(1.5f64, -2.25, 3.0);
    let b = Vector3::new(-0.5f64, 4.0, 10.125);
    assert_eq!(a + b, b + a);
    assert_eq!(a + b, Vector3::new(1.0, 1.75, 13.125));
    assert_eq!(a + (-a), Vector3::new(0.0, 0.0, 0.0));
}

#[test]
fn negation_flips_each_component() {
    let a = Vector3::new(1.0f32, -2.0, 0.5);
    assert_eq!(-a, Vector3::new(-1.0, 2.0, -0.5));
}

#[test]
fn subtraction_is_componentwise() {
    let a = Vector3::new(5.0f64, 7.0, -1.0);
    let b = Vector3::new(2.0f64, 10.0, 4.0);
    assert_eq!(a - b, Vector3::new(3.0, -3.0, -5.0));
}

#[test]
fn scalar_division_is_componentwise() {
    let a = Vector3::new(3.0f64, -6.0, 9.0);
    assert_eq!(a / 3.0, Vector3::new(1.0, -2.0, 3.0));
}

#[test]
fn division_by_zero_passes_through_ieee() {
    let a = Vector3::new(1.0f64, -1.0, 0.0) / 0.0;
    assert!(a.x.is_infinite() && a.x > 0.0);
    assert!(a.y.is_infinite() && a.y < 0.0);
    assert!(a.z.is_nan());
}

#[test]
fn dot_is_symmetric_with_exact_value() {
    let a = Vector3::new(1.0f64, 2.0, 3.0);
    let b = Vector3::new(4.0f64, 5.0, 6.0);
    assert_eq!(a.dot(&b), 32.0);
    assert_eq!(a.dot(&b), b.dot(&a));
}

#[test]
fn cross_has_standard_formula() {
    let a = Vector3::new(1.0f64, 2.0, 3.0);
    let b = Vector3::new(4.0f64, 5.0, 6.0);
    assert_eq!(a.cross(&b), Vector3::new(-3.0, 6.0, -3.0));
    let right = Vector3::new(1.0f64, 0.0, 0.0);
    let forward = Vector3::new(0.0f64, 1.0, 0.0);
    assert_eq!(right.cross(&forward), Vector3::new(0.0, 0.0, 1.0));
}

#[test]
fn cross_is_anticommutative_and_perpendicular() {
    let a = Vector3::new(2.0f64, -3.0, 7.0);
    let b = Vector3::new(-1.0f64, 5.0, 4.0);
    assert_eq!(a.cross(&b), -b.cross(&a));
    assert_eq!(a.dot(&a.cross(&b)), 0.0);
    assert_eq!(b.dot(&a.cross(&b)), 0.0);
}

#[test]
fn cross_on_integers() {
    let a = Vector3::new(1i64, 2, 3);
    let b = Vector3::new(4i64, 5, 6);
    assert_eq!(a.cross(&b), Vector3::new(-3, 6, -3));
}

#[test]
fn quick_magnitude_is_sum_of_squares() {
    let a = Vector3::new(1.0f64, 2.0, 3.0);
    assert_eq!(a.quick_magnitude(), 14.0);
    let m = a.quick_magnitude().sqrt();
    assert!((m * m - a.quick_magnitude()).abs() <= 4.0 * f64::EPSILON * 14.0);
    let b = Vector3::new(0.3f32, -1.7, 2.9);
    let mb = b.quick_magnitude().sqrt();
    assert!(relative_eq(b.quick_magnitude(), mb * mb, 4.0 * f32::EPSILON));
}

#[test]
fn angle_cosine_exact() {
    let a = Vector3::new(1.0f64, 0.0, 0.0);
    let b = Vector3::new(1.0f64, 1.0, 0.0);
    assert_eq!(a.angle_cosine(&b, 1.0, 2.0), 0.5);
}

#[test]
fn tuple_and_array_interop() {
    let v: Vector3<f64> = Vector3::from((1.0, 2.0, 3.0));
    assert_eq!(v, Vector3::new(1.0, 2.0, 3.0));
    assert_eq!(v.into_tuple(), (1.0, 2.0, 3.0));
    assert_eq!(v.into_array(), [1.0, 2.0, 3.0]);
}

#[test]
fn cylindrical_scenarios() {
    let c = Cylindrical { radius: 2.0f64, azimuth: 0.0, height: 5.0 };
    let v = Vector3::from_cylindrical(&c, c.azimuth.sin_cos());
    assert_eq!(v, Vector3::new(2.0, 0.0, 5.0));
    let c = Cylindrical { radius: 2.0f64, azimuth: std::f64::consts::FRAC_PI_2, height: 5.0 };
    let v = Vector3::from_cylindrical(&c, c.azimuth.sin_cos());
    assert!(close(v, Vector3::new(0.0, 2.0, 5.0), 1e-12));
}

#[test]
fn cylindrical_uses_given_sine_and_cosine() {
    let c = Cylindrical { radius: 3.0f64, azimuth: 0.0, height: -1.0 };
    let v = Vector3::from_cylindrical(&c, (0.5, 0.25));
    assert_eq!(v, Vector3::new(0.75, 1.5, -1.0));
}

#[test]
fn spherical_scenarios() {
    for az in [0.0f64, 1.0, 2.5, -3.0] {
        let s = Spherical { radius: 1.0f64, azimuthal_angle: az, polar_angle: 0.0 };
        let v = Vector3::from_spherical(&s, s.azimuthal_angle.sin_cos(), s.polar_angle.sin_cos());
        assert!(close(v, Vector3::new(0.0, 0.0, 1.0), 1e-12));
    }
    let s = Spherical { radius: 1.0f64, azimuthal_angle: 0.0, polar_angle: std::f64::consts::FRAC_PI_2 };
    let v = Vector3::from_spherical(&s, s.azimuthal_angle.sin_cos(), s.polar_angle.sin_cos());
    assert!(close(v, Vector3::new(1.0, 0.0, 0.0), 1e-12));
}

#[test]
fn spherical_uses_given_sines_and_cosines() {
    let s = Spherical { radius: 2.0f64, azimuthal_angle: 0.0, polar_angle: 0.0 };
    let v = Vector3::from_spherical(&s, (0.5, 0.25), (0.75, 0.125));
    assert_eq!(v, Vector3::new(0.375, 0.75, 0.25));
}

#[test]
fn cylindrical_round_trip() {
    for (x, y, z) in [(1.0f32, 2.0, 3.0), (-4.0, 0.5, -2.0), (-3.0, 0.0, 1.0), (0.0, -2.0, 0.0)] {
        let radius = (x * x + y * y).sqrt();
        let c = Cylindrical { radius, azimuth: y.atan2(x), height: z };
        let v = Vector3::from_cylindrical(&c, c.azimuth.sin_cos());
        let tol = 1e-6 * radius.max(1.0);
        assert!((v.x - x).abs() <= tol && (v.y - y).abs() <= tol);
        assert_eq!(v.z, z);
    }
}
