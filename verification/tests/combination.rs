use fixed_vector::{lerp, linear_combination, Vector};

#[test]
fn combines_basis_vectors() {
    let vectors = [Vector::new([1, 0]), Vector::new([0, 1])];
    let scalars = [2, 3];
    assert!(linear_combination(&vectors, &scalars) == Vector::new([2, 3]));
}

#[test]
fn combination_of_one_vector_with_one_is_that_vector() {
    let v = Vector::new([4, -5, 6]);
    assert!(linear_combination(&[v], &[1]) == v);
}

#[test]
fn combination_of_two_vectors_with_ones_is_their_sum() {
    let v1 = Vector::new([4, -5, 6]);
    let v2 = Vector::new([10, 20, -30]);
    assert!(linear_combination(&[v1, v2], &[1, 1]) == v1 + v2);
    assert_eq!(linear_combination(&[v1, v2], &[1, 1]).data, [14, 15, -24]);
}

#[test]
fn combination_weighs_each_vector_by_its_scalar() {
    let vectors = [Vector::new([1, 2, 3]), Vector::new([4, 5, 6]), Vector::new([7, 8, 9])];
    let scalars = [2, -1, 3];
    assert_eq!(linear_combination(&vectors, &scalars).data, [19, 23, 27]);
}

#[test]
fn combination_with_zero_scalars_is_zero() {
    let vectors = [Vector::new([1, 2]), Vector::new([3, 4])];
    assert_eq!(linear_combination(&vectors, &[0, 0]).data, [0, 0]);
}

#[test]
fn combination_of_float_vectors() {
    let vectors = [Vector::new([1.0f32, 0.5]), Vector::new([2.0f32, -1.0])];
    let scalars = [0.5f32, 2.0];
    assert_eq!(linear_combination(&vectors, &scalars).data, [4.5, -1.75]);
}

#[test]
fn combination_takes_slices_of_any_length() {
    let vectors = vec![Vector::new([1u64]); 10];
    let scalars = vec![3u64; 10];
    assert_eq!(linear_combination(&vectors, &scalars).data, [30]);
}

#[test]
fn combination_of_zero_dimensional_vectors() {
    let v: Vector<i32, 0> = Vector::new([]);
    assert!(linear_combination(&[v, v], &[5, 6]) == v);
}

#[test]
fn lerp_halfway_between_floats() {
    assert_eq!(lerp(0.0, 10.0, 0.5), 5.0);
}

#[test]
fn lerp_at_zero_is_the_first_value() {
    assert_eq!(lerp(3.0f32, 11.0, 0.0), 3.0);
    assert_eq!(lerp(3, 11, 0), 3);
}

#[test]
fn lerp_at_one_is_the_second_value() {
    assert_eq!(lerp(3.0f32, 11.0, 1.0), 11.0);
    assert_eq!(lerp(3, 11, 1), 11);
}

#[test]
fn lerp_at_one_half_is_the_midpoint() {
    assert_eq!(lerp(-4.0f32, 6.0, 0.5), 1.0);
}

#[test]
fn lerp_extrapolates_outside_the_unit_interval() {
    assert_eq!(lerp(0.0f32, 10.0, 2.0), 20.0);
    assert_eq!(lerp(0.0f32, 10.0, -1.0), -10.0);
    assert_eq!(lerp(2, 10, 3), 26);
}

#[test]
fn lerp_blends_vectors() {
    let x = Vector::new([0.0f32, 2.0]);
    let y = Vector::new([10.0f32, 4.0]);
    assert_eq!(lerp(x, y, 0.5).data, [5.0, 3.0]);
    assert_eq!(lerp(x, y, 0.0).data, [0.0, 2.0]);
    assert_eq!(lerp(x, y, 1.0).data, [10.0, 4.0]);
}

#[test]
fn lerp_blends_integer_vectors_by_an_integer_factor() {
    let x = Vector::new([1, 2]);
    let y = Vector::new([3, 7]);
    assert_eq!(lerp(x, y, 2).data, [5, 12]);
}
