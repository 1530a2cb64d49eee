use raytrace::interval::Interval;
use raytrace::ray::Ray;
use raytrace::vec3::{div_trunc, isqrt, Vec3};

fn parts(v: Vec3) -> (i64, i64, i64) {
    (v.x(), v.y(), v.z())
}

#[test]
fn accessors_return_coordinates() {
    let v = Vec3::new(4, -5, 6);
    assert_eq!(parts(v), (4, -5, 6));
    assert_eq!(v.index(0), 4);
    assert_eq!(v.index(1), -5);
    assert_eq!(v.index(2), 6);
}

#[test]
fn dot_and_length_squared() {
    let a = Vec3::new(1, 2, 3);
    let b = Vec3::new(-4, 5, 6);
    assert_eq!(a.dot(b), -4 + 10 + 18);
    assert_eq!(a.length_squared(), 14);
}

#[test]
fn cross_of_axes() {
    let x = Vec3::new(1, 0, 0);
    let y = Vec3::new(0, 1, 0);
    assert_eq!(parts(x.cross(y)), (0, 0, 1));
    assert_eq!(parts(y.cross(x)), (0, 0, -1));
    assert_eq!(parts(Vec3::new(2, 3, 4).cross(Vec3::new(5, 6, 7))), (-3, 6, -3));
}

#[test]
fn length_rounds_down() {
    assert_eq!(Vec3::new(3, 4, 0).length(), 5);
    assert_eq!(Vec3::new(1, 1, 1).length(), 1);
    assert_eq!(Vec3::new(0, 0, 0).length(), 0);
    assert_eq!(Vec3::new(2, 3, 6).length(), 7);
}

#[test]
fn unit_vec_divides_by_length() {
    assert_eq!(parts(Vec3::new(0, 0, 7).unit_vec()), (0, 0, 1));
    assert_eq!(parts(Vec3::new(0, -9, 0).unit_vec()), (0, -1, 0));
    assert_eq!(parts(Vec3::new(3, 4, 0).unit_vec()), (0, 0, 0));
}

#[test]
fn negation_flips_every_sign() {
    assert_eq!(parts(Vec3::new(1, -2, 3).neg()), (-1, 2, -3));
}

#[test]
fn componentwise_arithmetic() {
    let a = Vec3::new(1, 2, 3);
    let b = Vec3::new(4, -5, 6);
    assert_eq!(parts(a.add(b)), (5, -3, 9));
    assert_eq!(parts(a.sub(b)), (-3, 7, -3));
    assert_eq!(parts(a.mul(b)), (4, -10, 18));
    assert_eq!(parts(a.scale(-3)), (-3, -6, -9));
    assert_eq!(parts(Vec3::new(-7, 7, 0).div(2)), (-3, 3, 0));
}

#[test]
fn assigning_operations() {
    let mut v = Vec3::new(1, 2, 3);
    v.add_assign(Vec3::new(1, 1, 1));
    assert_eq!(parts(v), (2, 3, 4));
    v.mul_assign(Vec3::new(2, -1, 3));
    assert_eq!(parts(v), (4, -3, 12));
    v.div_assign(Vec3::new(3, 2, 5));
    assert_eq!(parts(v), (1, -1, 2));
}

#[test]
fn truncating_division() {
    assert_eq!(div_trunc(7, 2), 3);
    assert_eq!(div_trunc(-7, 2), -3);
    assert_eq!(div_trunc(i64::MIN, 1), i64::MIN);
    assert_eq!(div_trunc(7, -2), -3);
    assert_eq!(div_trunc(-7, -2), 3);
    assert_eq!(div_trunc(i64::MIN, 2), i64::MIN / 2);
    assert_eq!(div_trunc(i64::MIN, i64::MIN), 1);
    assert_eq!(div_trunc(0, -5), 0);
}

#[test]
fn division_by_negative_scalar() {
    assert_eq!(parts(Vec3::new(-7, 7, 0).div(-2)), (3, -3, 0));
}

#[test]
fn integer_square_root() {
    assert_eq!(isqrt(0), 0);
    assert_eq!(isqrt(15), 3);
    assert_eq!(isqrt(16), 4);
    assert_eq!(isqrt(u64::MAX), 0xffff_ffff);
}

#[test]
fn ray_point_at_parameter() {
    let r = Ray::new(Vec3::new(1, 2, 3), Vec3::new(1, 0, -1));
    assert_eq!(parts(r.origin()), (1, 2, 3));
    assert_eq!(parts(r.direction()), (1, 0, -1));
    assert_eq!(parts(r.at(2)), (3, 2, 1));
    assert_eq!(parts(r.at(0)), (1, 2, 3));
}

#[test]
fn zero_direction_ray_stays_put() {
    let r = Ray::new(Vec3::new(5, 5, 5), Vec3::new(0, 0, 0));
    assert_eq!(parts(r.at(100)), (5, 5, 5));
}

#[test]
fn interval_surrounds_is_strict() {
    let i = Interval::new(1, 10);
    assert!(i.surrounds(5));
    assert!(!i.surrounds(1));
    assert!(!i.surrounds(10));
    assert!(i.contains(1));
    assert!(i.contains(10));
    assert!(!i.contains(11));
}

#[test]
fn interval_clamp_saturates() {
    let i = Interval::new(0, 999);
    assert_eq!(i.clamp(-5), 0);
    assert_eq!(i.clamp(500), 500);
    assert_eq!(i.clamp(1000), 999);
}
