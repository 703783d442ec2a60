use geometry3d::{
    distance, isqrt_i64, rotate_vector_x, rotate_vector_y, rotate_vector_z, Point, Vector,
    COORD_BOUND,
};

#[test]
fn point_new_stores_coordinates() {
    let p = Point::new(1, -2, 3);
    assert_eq!(p.x, 1);
    assert_eq!(p.y, -2);
    assert_eq!(p.z, 3);
}

#[test]
fn vector_from_points_is_difference() {
    let a = Point::new(1, 2, 3);
    let b = Point::new(4, 6, 8);
    let v = Vector::new(&a, &b);
    assert_eq!(v, Vector { x: 3, y: 4, z: 5 });
}

#[test]
fn vector_from_points_reversed_negates() {
    let a = Point::new(1, 2, 3);
    let b = Point::new(4, 6, 8);
    let v = Vector::new(&a, &b);
    let w = Vector::new(&b, &a);
    assert_eq!(w, Vector { x: -v.x, y: -v.y, z: -v.z });
}

#[test]
fn scalar_product_exact() {
    let a = Vector { x: 1, y: 2, z: 3 };
    let b = Vector { x: 4, y: -5, z: 6 };
    assert_eq!(a.scalar_product(&b), 4 - 10 + 18);
}

#[test]
fn scalar_product_commutative() {
    let a = Vector { x: 7, y: -3, z: 11 };
    let b = Vector { x: -2, y: 9, z: 5 };
    assert_eq!(a.scalar_product(&b), b.scalar_product(&a));
}

#[test]
fn scalar_product_of_perpendicular_axes_is_zero() {
    let a = Vector { x: 1, y: 0, z: 0 };
    let b = Vector { x: 0, y: 1, z: 0 };
    assert_eq!(a.scalar_product(&b), 0);
}

#[test]
fn cross_product_of_unit_axes() {
    let a = Vector { x: 1, y: 0, z: 0 };
    let b = Vector { x: 0, y: 1, z: 0 };
    assert_eq!(a.cross_product(&b), Vector { x: 0, y: 0, z: 1 });
}

#[test]
fn cross_product_anticommutative() {
    let a = Vector { x: 2, y: -1, z: 4 };
    let b = Vector { x: 5, y: 3, z: -7 };
    let ab = a.cross_product(&b);
    let ba = b.cross_product(&a);
    assert_eq!(ab, Vector { x: -ba.x, y: -ba.y, z: -ba.z });
}

#[test]
fn cross_product_of_parallel_vectors_is_zero() {
    let a = Vector { x: 2, y: -3, z: 5 };
    let b = Vector { x: 4, y: -6, z: 10 };
    assert_eq!(a.cross_product(&b), Vector { x: 0, y: 0, z: 0 });
    assert_eq!(a.cross_product(&a), Vector { x: 0, y: 0, z: 0 });
}

#[test]
fn length_of_3_4_0_is_5() {
    let v = Vector { x: 3, y: 4, z: 0 };
    assert_eq!(v.length(), 5);
}

#[test]
fn length_rounds_down() {
    let v = Vector { x: 1, y: 1, z: 1 };
    assert_eq!(v.length(), 1);
}

#[test]
fn length_zero_iff_zero_vector() {
    assert_eq!(Vector { x: 0, y: 0, z: 0 }.length(), 0);
    assert_eq!(Vector { x: 0, y: 0, z: 1 }.length(), 1);
    assert_eq!(Vector { x: 0, y: -1, z: 0 }.length(), 1);
}

#[test]
fn length_squared_exact() {
    let v = Vector { x: -2, y: 3, z: 6 };
    assert_eq!(v.length_squared(), 4 + 9 + 36);
    assert_eq!(v.length(), 7);
}

#[test]
fn distance_of_3_4_triangle_is_5() {
    let a = Point::new(0, 0, 0);
    let b = Point::new(3, 4, 0);
    assert_eq!(distance(&a, &b), 5);
}

#[test]
fn distance_symmetric() {
    let a = Point::new(1, -2, 7);
    let b = Point::new(-4, 3, 9);
    assert_eq!(distance(&a, &b), distance(&b, &a));
}

#[test]
fn distance_to_self_is_zero() {
    let a = Point::new(12, -34, 56);
    assert_eq!(distance(&a, &a), 0);
}

#[test]
fn distance_equals_length_of_difference_vector() {
    let a = Point::new(2, 3, 5);
    let b = Point::new(7, 11, 13);
    assert_eq!(distance(&a, &b), Vector::new(&a, &b).length());
}

#[test]
fn rotate_z_quarter_turn_sends_x_axis_to_y_axis() {
    let v = Vector { x: 1, y: 0, z: 0 };
    assert_eq!(rotate_vector_z(0, 1, &v), Vector { x: 0, y: 1, z: 0 });
}

#[test]
fn rotate_x_quarter_turn_sends_y_axis_to_z_axis() {
    let v = Vector { x: 0, y: 1, z: 0 };
    assert_eq!(rotate_vector_x(0, 1, &v), Vector { x: 0, y: 0, z: 1 });
}

#[test]
fn rotate_y_quarter_turn_sends_z_axis_to_x_axis() {
    let v = Vector { x: 0, y: 0, z: 1 };
    assert_eq!(rotate_vector_y(0, 1, &v), Vector { x: 1, y: 0, z: 0 });
}

#[test]
fn rotate_by_zero_angle_is_identity() {
    let v = Vector { x: 3, y: -7, z: 11 };
    assert_eq!(rotate_vector_x(1, 0, &v), v);
    assert_eq!(rotate_vector_y(1, 0, &v), v);
    assert_eq!(rotate_vector_z(1, 0, &v), v);
}

#[test]
fn rotate_z_two_quarter_turns_is_half_turn() {
    let v = Vector { x: 1, y: 2, z: 3 };
    let twice = rotate_vector_z(0, 1, &rotate_vector_z(0, 1, &v));
    assert_eq!(twice, rotate_vector_z(-1, 0, &v));
    assert_eq!(twice, Vector { x: -1, y: -2, z: 3 });
}

#[test]
fn rotate_preserves_length() {
    let v = Vector { x: 3, y: 4, z: 12 };
    assert_eq!(rotate_vector_z(0, 1, &v).length(), v.length());
    assert_eq!(rotate_vector_y(0, -1, &v).length(), v.length());
    assert_eq!(rotate_vector_x(-1, 0, &v).length(), v.length());
}

#[test]
fn operations_at_the_coordinate_bound() {
    let v = Vector { x: COORD_BOUND, y: COORD_BOUND, z: COORD_BOUND };
    assert_eq!(v.scalar_product(&v), 3_000_000_000_000_000_000);
    assert_eq!(v.length_squared(), 3_000_000_000_000_000_000);
    assert_eq!(v.length(), 1_732_050_807);
    let w = Vector { x: -COORD_BOUND, y: -COORD_BOUND, z: -COORD_BOUND };
    assert_eq!(v.cross_product(&w), Vector { x: 0, y: 0, z: 0 });
}

#[test]
fn isqrt_small_values() {
    assert_eq!(isqrt_i64(0), 0);
    assert_eq!(isqrt_i64(1), 1);
    assert_eq!(isqrt_i64(2), 1);
    assert_eq!(isqrt_i64(3), 1);
    assert_eq!(isqrt_i64(4), 2);
    assert_eq!(isqrt_i64(24), 4);
    assert_eq!(isqrt_i64(25), 5);
    assert_eq!(isqrt_i64(26), 5);
}

#[test]
fn isqrt_large_values() {
    assert_eq!(isqrt_i64(3_000_000_000_000_000_000), 1_732_050_807);
    let r: i64 = 1_500_000_000;
    assert_eq!(isqrt_i64(r * r), r);
    assert_eq!(isqrt_i64(r * r - 1), r - 1);
}
