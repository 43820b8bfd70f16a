use fixed_vector::Vector;

#[test]
fn adds_componentwise() {
    let a = Vector::new([1, 2, 3]);
    let b = Vector::new([4, 5, 6]);
    assert!(a + b == Vector::new([5, 7, 9]));
}

#[test]
fn add_leaves_the_operands_unchanged() {
    let a = Vector::new([1, 2, 3]);
    let b = Vector::new([4, 5, 6]);
    let _ = a + b;
    assert_eq!(a.data, [1, 2, 3]);
    assert_eq!(b.data, [4, 5, 6]);
}

#[test]
fn adds_up_to_the_limits_of_the_element_type() {
    let a = Vector::new([i8::MAX - 1, i8::MIN + 1]);
    let b = Vector::new([1i8, -1]);
    assert_eq!((a + b).data, [i8::MAX, i8::MIN]);
}

#[test]
fn adds_floats_componentwise() {
    let a = Vector::new([0.5f32, 1.25]);
    let b = Vector::new([0.25f32, 2.5]);
    assert_eq!((a + b).data, [0.75, 3.75]);
}

#[test]
fn adds_empty_vectors() {
    let a: Vector<i32, 0> = Vector::new([]);
    let b: Vector<i32, 0> = Vector::new([]);
    assert!(a + b == Vector::new([]));
}

#[test]
fn addition_is_commutative() {
    let a = Vector::new([3, -7, 11, 0]);
    let b = Vector::new([-5, 2, 8, 13]);
    assert!(a + b == b + a);
}

#[test]
fn addition_is_associative() {
    let a = Vector::new([3, -7, 11]);
    let b = Vector::new([-5, 2, 8]);
    let c = Vector::new([100, 200, -300]);
    assert!((a + b) + c == a + (b + c));
    assert_eq!(((a + b) + c).data, [98, 195, -281]);
}

#[test]
fn a_vector_plus_its_negation_is_zero() {
    let a = Vector::new([3, -7, 11, 0]);
    assert!(a + a * -1 == Vector::new([0, 0, 0, 0]));
}

#[test]
fn subtracts_componentwise() {
    let a = Vector::new([5, 7, 9]);
    let b = Vector::new([4, 5, 6]);
    assert_eq!((a - b).data, [1, 2, 3]);
    assert_eq!((b - a).data, [-1, -2, -3]);
}

#[test]
fn subtraction_undoes_addition() {
    let a = Vector::new([12u32, 0, 7]);
    let b = Vector::new([1u32, 2, 3]);
    assert!((a + b) - b == a);
}

#[test]
fn subtracts_floats_componentwise() {
    let a = Vector::new([1.5f64, 2.0]);
    let b = Vector::new([0.5f64, 4.0]);
    assert_eq!((a - b).data, [1.0, -2.0]);
}

#[test]
fn multiplies_every_component_by_the_scalar() {
    let a = Vector::new([1, -2, 3]);
    assert_eq!((a * 4).data, [4, -8, 12]);
    assert_eq!((a * 0).data, [0, 0, 0]);
    assert_eq!((a * 1).data, [1, -2, 3]);
}

#[test]
fn multiplies_floats_by_a_float_scalar() {
    let a = Vector::new([1.5f32, -2.0]);
    assert_eq!((a * 0.5).data, [0.75, -1.0]);
}

#[test]
fn crosses_unit_vectors() {
    let x = Vector::new([1, 0, 0]);
    let y = Vector::new([0, 1, 0]);
    assert!(x.cross(&y) == Vector::new([0, 0, 1]));
}

#[test]
fn crosses_the_unit_vectors_cyclically() {
    let x = Vector::new([1, 0, 0]);
    let y = Vector::new([0, 1, 0]);
    let z = Vector::new([0, 0, 1]);
    assert_eq!(y.cross(&z).data, [1, 0, 0]);
    assert_eq!(z.cross(&x).data, [0, 1, 0]);
    assert_eq!(y.cross(&x).data, [0, 0, -1]);
}

#[test]
fn crosses_general_vectors() {
    let a = Vector::new([2, 3, 4]);
    let b = Vector::new([5, 6, 7]);
    assert_eq!(a.cross(&b).data, [3 * 7 - 4 * 6, 4 * 5 - 2 * 7, 2 * 6 - 3 * 5]);
    assert_eq!(a.cross(&b).data, [-3, 6, -3]);
}

#[test]
fn a_vector_crossed_with_itself_is_zero() {
    let a = Vector::new([2, -3, 4]);
    assert_eq!(a.cross(&a).data, [0, 0, 0]);
}

#[test]
fn crosses_float_vectors() {
    let a = Vector::new([1.0f32, 2.0, 3.0]);
    let b = Vector::new([0.5f32, 0.0, -1.0]);
    assert_eq!(a.cross(&b).data, [-2.0, 2.5, -1.0]);
}

#[test]
fn the_cross_product_is_orthogonal_to_its_operands() {
    let a = Vector::new([2i32, -3, 4]);
    let b = Vector::new([5i32, 6, -7]);
    let c = a.cross(&b);
    let with_a: i64 = c.dot(&a);
    let with_b: i64 = c.dot(&b);
    assert_eq!(with_a, 0);
    assert_eq!(with_b, 0);
}

#[test]
fn the_float_cross_product_is_orthogonal_to_its_operands() {
    let a = Vector::new([1.0f32, 2.0, 3.0]);
    let b = Vector::new([-4.0f32, 0.5, 2.0]);
    let c = a.cross(&b);
    let with_a: f32 = c.dot(&a);
    let with_b: f32 = c.dot(&b);
    assert!(with_a.abs() < 1e-4);
    assert!(with_b.abs() < 1e-4);
}

#[test]
fn dot_sums_the_products() {
    let a = Vector::new([1i32, 2, 3]);
    let b = Vector::new([4i32, 5, 6]);
    let d: i64 = a.dot(&b);
    assert_eq!(d, 32);
}

#[test]
fn dot_accumulates_in_the_wider_type() {
    let a = Vector::new([i16::MAX, i16::MAX]);
    let d: i64 = a.dot(&a);
    assert_eq!(d, 2 * 32767 * 32767);
}

#[test]
fn dot_of_small_integers_as_a_float() {
    let a = Vector::new([3i16, 4]);
    let b = Vector::new([-1i16, 2]);
    let d: f32 = a.dot(&b);
    assert_eq!(d, 5.0);
}

#[test]
fn dot_of_float_vectors() {
    let a = Vector::new([1.5f32, 2.0]);
    let b = Vector::new([2.0f32, 4.0]);
    let d: f32 = a.dot(&b);
    assert_eq!(d, 11.0);
}

#[test]
fn dot_of_empty_vectors_is_zero() {
    let a: Vector<i32, 0> = Vector::new([]);
    let d: i64 = a.dot(&a);
    assert_eq!(d, 0);
}

#[test]
fn dot_is_symmetric() {
    let a = Vector::new([7i32, -2, 0, 5]);
    let b = Vector::new([3i32, 9, -4, 1]);
    let ab: i64 = a.dot(&b);
    let ba: i64 = b.dot(&a);
    assert_eq!(ab, ba);
    assert_eq!(ab, 8);
}

#[test]
fn dot_with_itself_is_the_sum_of_squares() {
    let a = Vector::new([3i32, 4]);
    let d: i64 = a.dot(&a);
    assert_eq!(d, 25);
}
