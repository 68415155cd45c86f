use geometry::cube::Cube;
use geometry::rectangle::Rectangle;
use geometry::scalar::Scalar;
use geometry::vec2::Vec2f;
use geometry::vec3::Vec3f;

fn s(v: f64) -> Scalar {
    Scalar::from_bits(v.to_bits())
}

fn v3(x: f64, y: f64, z: f64) -> Vec3f {
    Vec3f::new(s(x), s(y), s(z))
}

fn v2(x: f64, y: f64) -> Vec2f {
    Vec2f::new(s(x), s(y))
}

#[test]
fn cube_init_tests() {
    let cube = Cube::new(Vec3f::zero(), v3(2.0, 2.0, 2.0));
    assert_eq!(cube.get_min(), Vec3f::zero());
    assert_eq!(cube.get_max(), v3(2.0, 2.0, 2.0));
    let cube = Cube::new(Vec3f::zero(), v3(-2.0, 2.0, 1.0));
    assert_eq!(cube.get_min(), v3(-2.0, 0.0, 0.0));
    assert_eq!(cube.get_max(), v3(0.0, 2.0, 1.0));
}

#[test]
fn rectangle_init_normalizes_corners() {
    let rect = Rectangle::new(v2(3.0, -1.0), v2(-2.0, 4.0));
    assert_eq!(rect.get_min(), v2(-2.0, -1.0));
    assert_eq!(rect.get_max(), v2(3.0, 4.0));
}

#[test]
fn construction_ignores_corner_order() {
    let a = v3(5.0, -3.0, 0.25);
    let b = v3(-1.0, 7.0, 0.25);
    assert_eq!(Cube::new(a, b), Cube::new(b, a));
    let c = v2(5.0, -3.0);
    let d = v2(-1.0, 7.0);
    assert_eq!(Rectangle::new(c, d).get_min(), Rectangle::new(d, c).get_min());
    assert_eq!(Rectangle::new(c, d).get_max(), Rectangle::new(d, c).get_max());
}

#[test]
fn nan_corner_is_ignored_against_a_number() {
    let cube = Cube::new(v3(f64::NAN, 0.0, 2.0), v3(1.0, 0.0, -f64::NAN));
    assert_eq!(cube.get_min(), v3(1.0, 0.0, 2.0));
    assert_eq!(cube.get_max(), v3(1.0, 0.0, 2.0));
    let rect = Rectangle::new(v2(-f64::NAN, 3.0), v2(-4.0, f64::NAN));
    assert_eq!(rect.get_min(), v2(-4.0, 3.0));
    assert_eq!(rect.get_max(), v2(-4.0, 3.0));
}

#[test]
fn corners_normalize_like_f64_min_and_max() {
    let values = [f64::NEG_INFINITY, -2.5, -1e-310, 1e-310, 1.0, f64::INFINITY, f64::NAN, -f64::NAN];
    for a in values {
        for b in values {
            if a.is_nan() && b.is_nan() {
                continue;
            }
            let rect = Rectangle::new(v2(a, b), v2(b, a));
            assert_eq!(rect.get_min(), v2(a.min(b), a.min(b)), "{a} vs {b}");
            assert_eq!(rect.get_max(), v2(a.max(b), a.max(b)), "{a} vs {b}");
        }
    }
}

#[test]
fn signed_zero_and_nan_pairs_normalize_by_total_order() {
    let cube = Cube::new(v3(0.0, f64::NAN, 1.0), v3(-0.0, -f64::NAN, 1.0));
    let min = cube.get_min();
    let max = cube.get_max();
    assert_eq!(min.x.to_bits(), (-0.0f64).to_bits());
    assert_eq!(max.x.to_bits(), 0.0f64.to_bits());
    assert_eq!(min.y.to_bits(), (-f64::NAN).to_bits());
    assert_eq!(max.y.to_bits(), f64::NAN.to_bits());
}

#[test]
fn setters_replace_one_corner() {
    let mut cube = Cube::new(Vec3f::zero(), v3(1.0, 1.0, 1.0));
    cube.set_max(v3(4.0, 5.0, 6.0));
    assert_eq!(cube.get_min(), Vec3f::zero());
    assert_eq!(cube.get_max(), v3(4.0, 5.0, 6.0));
    cube.set_min(v3(-1.0, -1.0, -1.0));
    assert_eq!(cube.get_min(), v3(-1.0, -1.0, -1.0));
    assert_eq!(cube.get_max(), v3(4.0, 5.0, 6.0));
    let mut rect = Rectangle::new(Vec2f::zero(), v2(1.0, 1.0));
    rect.set_min(v2(-3.0, -2.0));
    rect.set_max(v2(8.0, 9.0));
    assert_eq!(rect.get_min(), v2(-3.0, -2.0));
    assert_eq!(rect.get_max(), v2(8.0, 9.0));
}
