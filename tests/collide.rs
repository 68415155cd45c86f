use geometry::collide::{Collide, CollideResult};
use geometry::cube::Cube;
use geometry::rectangle::Rectangle;
use geometry::scalar::Scalar;
use geometry::vec2::Vec2f;
use geometry::vec3::Vec3f;

fn s(v: f64) -> Scalar {
    Scalar::from_bits(v.to_bits())
}

fn v3(x: f64, y: f64, z: f64) -> Vec3f {
    Vec3f::new(s(x), s(y), s(z))
}

fn v2(x: f64, y: f64) -> Vec2f {
    Vec2f::new(s(x), s(y))
}

#[test]
fn cube_tests() {
    let cube1 = Cube::new(v3(1.0, 1.0, 1.0), v3(2.0, 2.0, 2.0));
    let cube2 = Cube::new(Vec3f::zero(), v3(3.0, 3.0, 3.0));
    assert_eq!(cube1.collide(&cube2), CollideResult::In);
    assert_eq!(cube2.collide(&cube1), CollideResult::Contains);
    let cube2 = Cube::new(Vec3f::zero(), v3(1.5, 1.5, 1.5));
    assert_eq!(cube1.collide(&cube2), CollideResult::Intersects);
    assert_eq!(cube2.collide(&cube1), CollideResult::Intersects);
    let cube2 = Cube::new(v3(3.0, 3.0, 3.0), v3(4.0, 4.0, 4.0));
    assert_eq!(cube1.collide(&cube2), CollideResult::Disjoint);
    assert_eq!(cube2.collide(&cube1), CollideResult::Disjoint);
    let cube2 = Cube::new(v3(1.5, 1.5, 0.5), v3(3.0, 2.0, 3.5));
    assert_eq!(cube1.collide(&cube2), CollideResult::Intersects);
    assert_eq!(cube2.collide(&cube1), CollideResult::Intersects);
}

#[test]
fn rectangle_tests() {
    let rect1 = Rectangle::new(v2(1.0, 1.0), v2(2.0, 2.0));
    let rect2 = Rectangle::new(Vec2f::zero(), v2(3.0, 3.0));
    assert_eq!(rect1.collide(&rect2), CollideResult::In);
    assert_eq!(rect2.collide(&rect1), CollideResult::Contains);
    let rect2 = Rectangle::new(Vec2f::zero(), v2(1.5, 1.5));
    assert_eq!(rect1.collide(&rect2), CollideResult::Intersects);
    assert_eq!(rect2.collide(&rect1), CollideResult::Intersects);
    let rect2 = Rectangle::new(v2(3.0, 3.0), v2(4.0, 4.0));
    assert_eq!(rect1.collide(&rect2), CollideResult::Disjoint);
    assert_eq!(rect2.collide(&rect1), CollideResult::Disjoint);
    let rect2 = Rectangle::new(v2(1.5, 1.5), v2(3.0, 2.0));
    assert_eq!(rect1.collide(&rect2), CollideResult::Intersects);
    assert_eq!(rect2.collide(&rect1), CollideResult::Intersects);
}

#[test]
fn corners_given_in_reverse_order_classify_alike() {
    let a = Cube::new(v3(2.0, 2.0, 2.0), v3(1.0, 1.0, 1.0));
    let b = Cube::new(v3(3.0, 3.0, 3.0), Vec3f::zero());
    assert_eq!(a.collide(&b), CollideResult::In);
    assert_eq!(b.collide(&a), CollideResult::Contains);
}

#[test]
fn zero_volume_cube_contains_itself_and_lies_in_surrounding_box() {
    let point = Cube::new(v3(1.0, 1.0, 1.0), v3(1.0, 1.0, 1.0));
    assert_eq!(point.collide(&point), CollideResult::Contains);
    let around = Cube::new(Vec3f::zero(), v3(2.0, 2.0, 2.0));
    assert_eq!(point.collide(&around), CollideResult::In);
    assert_eq!(around.collide(&point), CollideResult::Contains);
}

#[test]
fn zero_area_rectangle_contains_itself_and_lies_in_surrounding_box() {
    let point = Rectangle::new(v2(1.0, 1.0), v2(1.0, 1.0));
    assert_eq!(point.collide(&point), CollideResult::Contains);
    let around = Rectangle::new(Vec2f::zero(), v2(2.0, 2.0));
    assert_eq!(point.collide(&around), CollideResult::In);
    assert_eq!(around.collide(&point), CollideResult::Contains);
}

#[test]
fn box_collided_with_itself_is_contains() {
    let a = Cube::new(v3(-1.0, 0.5, 2.0), v3(4.0, 3.0, -2.0));
    assert_eq!(a.collide(&a), CollideResult::Contains);
    let r = Rectangle::new(v2(-1.0, 0.5), v2(4.0, 3.0));
    assert_eq!(r.collide(&r), CollideResult::Contains);
}

#[test]
fn gap_on_one_axis_is_disjoint_both_ways() {
    let a = Cube::new(v3(1.0, 1.0, 1.0), v3(2.0, 2.0, 2.0));
    let b = Cube::new(v3(3.0, 0.0, 0.0), v3(4.0, 5.0, 5.0));
    assert_eq!(a.collide(&b), CollideResult::Disjoint);
    assert_eq!(b.collide(&a), CollideResult::Disjoint);
    let c = Rectangle::new(v2(0.0, 0.0), v2(1.0, 1.0));
    let d = Rectangle::new(v2(-5.0, 2.0), v2(5.0, 3.0));
    assert_eq!(c.collide(&d), CollideResult::Disjoint);
    assert_eq!(d.collide(&c), CollideResult::Disjoint);
}

#[test]
fn shared_face_counts_as_intersecting() {
    let a = Cube::new(Vec3f::zero(), v3(1.0, 1.0, 1.0));
    let b = Cube::new(v3(1.0, 1.0, 1.0), v3(2.0, 2.0, 2.0));
    assert_eq!(a.collide(&b), CollideResult::Intersects);
    assert_eq!(b.collide(&a), CollideResult::Intersects);
}

#[test]
fn crossing_boxes_intersect() {
    let wide = Rectangle::new(v2(0.0, 1.0), v2(3.0, 2.0));
    let tall = Rectangle::new(v2(1.0, 0.0), v2(2.0, 3.0));
    assert_eq!(wide.collide(&tall), CollideResult::Intersects);
    assert_eq!(tall.collide(&wide), CollideResult::Intersects);
}

#[test]
fn edge_contact_without_uniform_corner_relation_is_disjoint() {
    // The boxes share part of an edge, but no corner pair compares the same
    // way on every axis.
    let a = Rectangle::new(v2(1.0, 0.0), v2(2.0, 2.0));
    let b = Rectangle::new(v2(0.0, 1.0), v2(1.0, 3.0));
    assert_eq!(a.collide(&b), CollideResult::Disjoint);
    assert_eq!(b.collide(&a), CollideResult::Disjoint);
}

#[test]
fn box_with_nan_corner_still_classifies() {
    let nan = f64::NAN;
    let a = Cube::new(v3(nan, nan, nan), v3(nan, nan, nan));
    assert_eq!(a.collide(&a), CollideResult::Contains);
    let b = Cube::new(Vec3f::zero(), v3(1.0, 1.0, 1.0));
    assert_eq!(a.collide(&b), CollideResult::Disjoint);
    assert_eq!(b.collide(&a), CollideResult::Disjoint);
}
