use fixed_vector::Vector;

#[test]
fn new_keeps_the_components_in_order() {
    let v = Vector::new([7, 8, 9]);
    assert_eq!(v.data, [7, 8, 9]);
}

#[test]
fn from_array_builds_the_same_vector_as_new() {
    let a: Vector<i32, 3> = Vector::from([1, 2, 3]);
    let b = Vector::new([1, 2, 3]);
    assert!(a == b);
    let c: Vector<u8, 2> = [4, 5].into();
    assert_eq!(c.data, [4, 5]);
}

#[test]
fn from_array_accepts_elements_that_are_not_copy() {
    let v: Vector<String, 2> = Vector::from([String::from("a"), String::from("b")]);
    assert_eq!(v[1], "b");
}

#[test]
fn index_reads_each_component() {
    let v = Vector::new([10, 20, 30]);
    assert_eq!(v[0], 10);
    assert_eq!(v[1], 20);
    assert_eq!(v[2], 30);
}

#[test]
fn index_reads_the_last_valid_position() {
    let v = Vector::new([1u8, 2, 3, 4, 5]);
    assert_eq!(v[4], 5);
}

#[test]
fn index_mut_replaces_one_component_only() {
    let mut v = Vector::new([10, 20, 30]);
    *v.index_mut(1) = 99;
    assert_eq!(v.data, [10, 99, 30]);
    *v.index_mut(0) = -1;
    *v.index_mut(2) = 0;
    assert_eq!(v.data, [-1, 99, 0]);
}

#[test]
fn index_mut_hands_out_the_current_component() {
    let mut v = Vector::new([3, 4]);
    let slot = v.index_mut(1);
    assert_eq!(*slot, 4);
    *slot += 1;
    assert_eq!(v[1], 5);
}

#[test]
fn a_copy_is_independent_of_its_source() {
    let a = Vector::new([1, 2, 3]);
    let mut b = a;
    *b.index_mut(0) = 100;
    assert_eq!(a.data, [1, 2, 3]);
    assert_eq!(b.data, [100, 2, 3]);
    let c = a.clone();
    assert!(c == a);
}

#[test]
fn equal_vectors_compare_equal() {
    assert!(Vector::new([1, 2, 3]) == Vector::new([1, 2, 3]));
    assert!(Vector::new([0u64; 4]) == Vector::new([0u64; 4]));
}

#[test]
fn vectors_differing_in_one_component_are_unequal() {
    assert!(Vector::new([1, 2, 3]) != Vector::new([9, 2, 3]));
    assert!(Vector::new([1, 2, 3]) != Vector::new([1, 9, 3]));
    assert!(Vector::new([1, 2, 3]) != Vector::new([1, 2, 9]));
}

#[test]
fn component_order_matters_for_equality() {
    assert!(Vector::new([1, 2]) != Vector::new([2, 1]));
}

#[test]
fn empty_vectors_are_equal() {
    let a: Vector<i32, 0> = Vector::new([]);
    let b: Vector<i32, 0> = Vector::new([]);
    assert!(a == b);
}

#[test]
fn float_vectors_compare_by_float_equality() {
    assert!(Vector::new([1.5f32, 2.0]) == Vector::new([1.5f32, 2.0]));
    assert!(Vector::new([f32::NAN]) != Vector::new([f32::NAN]));
}

#[test]
fn renders_integers_between_brackets() {
    assert_eq!(Vector::new([1, 2, 3]).to_string(), "[1, 2, 3]");
}

#[test]
fn renders_negative_components() {
    assert_eq!(Vector::new([-1, 0, 25]).to_string(), "[-1, 0, 25]");
}

#[test]
fn renders_one_component_without_separator() {
    assert_eq!(Vector::new([7]).to_string(), "[7]");
}

#[test]
fn renders_the_empty_vector() {
    let v: Vector<i32, 0> = Vector::new([]);
    assert_eq!(v.to_string(), "[]");
}

#[test]
fn renders_floats_in_their_own_form() {
    assert_eq!(Vector::new([1.5f32, -2.0, 0.25]).to_string(), "[1.5, -2, 0.25]");
}

#[test]
fn renders_text_components_as_they_are() {
    let v: Vector<&str, 2> = Vector::from(["a, b", "c"]);
    assert_eq!(v.to_string(), "[a, b, c]");
}

#[test]
fn debug_form_names_the_type() {
    let text = format!("{:?}", Vector::new([1, 2]));
    assert_eq!(text, "Vector { data: [1, 2] }");
}
