use vecmath::{Vector2, Vector3, Vector4};

#[test]
fn new_sets_fields_in_declared_order() {
    let v = Vector3::new(1i64, 2, 3);
    assert_eq!(v.x, 1);
    assert_eq!(v.y, 2);
    assert_eq!(v.z, 3);
}

#[test]
fn set_overwrites_all_fields() {
    let mut v = Vector4::new(0i64, 0, 0, 0);
    v.set(9, 8, 7, 6);
    assert_eq!((v.x, v.y, v.z, v.w), (9, 8, 7, 6));
}

#[test]
fn set_scalar_overwrites_every_field() {
    let mut v = Vector2::new(1i64, 2);
    v.set_scalar(5);
    assert_eq!((v.x, v.y), (5, 5));
}

#[test]
fn add_then_sub_restores_receiver() {
    let mut v = Vector3::new(10i64, -20, 30);
    let d = Vector3::new(7i64, 8, -9);
    v.add(&d);
    assert_eq!((v.x, v.y, v.z), (17, -12, 21));
    v.sub(&d);
    assert_eq!((v.x, v.y, v.z), (10, -20, 30));
}

#[test]
fn add_vectors_then_sub_vectors_recovers_first_operand() {
    let a = Vector2::new(12i64, -3);
    let b = Vector2::new(5i64, 40);
    let mut sum = Vector2::new(0i64, 0);
    sum.add_vectors(&a, &b);
    assert_eq!((sum.x, sum.y), (17, 37));
    let mut back = Vector2::new(0i64, 0);
    back.sub_vectors(&sum, &b);
    assert_eq!((back.x, back.y), (a.x, a.y));
}

#[test]
fn add_scalar_and_sub_scalar() {
    let mut v = Vector2::new(1i64, -1);
    v.add_scalar(10);
    assert_eq!((v.x, v.y), (11, 9));
    v.sub_scalar(10);
    assert_eq!((v.x, v.y), (1, -1));
}

#[test]
fn add_scaled_vectors_overwrites_and_does_not_accumulate() {
    let mut v = Vector2::new(100i64, 200);
    let src = Vector2::new(1i64, 2);
    v.add_scaled_vectors(&src, 3);
    assert_eq!((v.x, v.y), (3, 6));
}

#[test]
fn multiply_is_element_wise() {
    let mut v = Vector3::new(2i64, -3, 4);
    v.multiply(&Vector3::new(5i64, 6, -7));
    assert_eq!((v.x, v.y, v.z), (10, -18, -28));
}

#[test]
fn multiply_scalar_then_divide_scalar_restores_receiver() {
    let mut v = Vector3::new(3i64, -5, 0);
    v.multiply_scalar(4);
    assert_eq!((v.x, v.y, v.z), (12, -20, 0));
    v.divide_scalar(4);
    assert_eq!((v.x, v.y, v.z), (3, -5, 0));
}

#[test]
fn divide_is_element_wise_and_truncates_toward_zero() {
    let mut v = Vector4::new(7i64, -7, 9, -9);
    v.divide(&Vector4::new(2i64, 2, -4, -4));
    assert_eq!((v.x, v.y, v.z, v.w), (3, -3, -2, 2));
}

#[test]
fn divide_scalar_truncates_toward_zero() {
    let mut v = Vector2::new(7i64, -7);
    v.divide_scalar(2);
    assert_eq!((v.x, v.y), (3, -3));
}

#[test]
fn min_keeps_the_smaller_field_by_field() {
    let mut a = Vector2::new(1i64, 4);
    let b = Vector2::new(3i64, 2);
    a.min(b);
    assert_eq!((a.x, a.y), (1, 2));
    a.max(b);
    assert_eq!((a.x, a.y), (3, 2));
}

#[test]
fn min_and_max_are_idempotent() {
    let b = Vector3::new(3i64, -2, 10);
    let mut once = Vector3::new(5i64, -7, 10);
    once.min(b);
    let mut twice = once;
    twice.min(b);
    assert_eq!((once.x, once.y, once.z), (twice.x, twice.y, twice.z));
    let mut mx_once = Vector3::new(5i64, -7, 10);
    mx_once.max(b);
    let mut mx_twice = mx_once;
    mx_twice.max(b);
    assert_eq!((mx_once.x, mx_once.y, mx_once.z), (mx_twice.x, mx_twice.y, mx_twice.z));
}

#[test]
fn clamp_applies_the_literal_formula() {
    // Each field becomes max(max.field, min(self.field, min.field)).
    let mut v = Vector2::new(5i64, -5);
    v.clamp(Vector2::new(2i64, -2), Vector2::new(8i64, 0));
    // x: max(8, min(5, 2)) = 8; y: max(0, min(-5, -2)) = 0.
    assert_eq!((v.x, v.y), (8, 0));
}

#[test]
fn clamp_scalar_applies_the_literal_formula_and_stays_in_bounds() {
    let mut v = Vector3::new(5i64, -100, 0);
    v.clamp_scalar(0, 10);
    // Each field: max(10, min(field, 0)); never outside [0, 10].
    for f in [v.x, v.y, v.z] {
        assert!((0..=10).contains(&f));
    }
    assert_eq!((v.x, v.y, v.z), (10, 10, 10));
}

#[test]
fn scenario_vector3_add_scalar_multiply_scalar() {
    let mut v = Vector3::new(1i64, 2, 3);
    v.add_scalar(5);
    assert_eq!((v.x, v.y, v.z), (6, 7, 8));
    v.multiply_scalar(2);
    assert_eq!((v.x, v.y, v.z), (12, 14, 16));
    let r = v.get_component(3);
    assert_eq!(r.unwrap_err().index, 3);
}

#[test]
fn scenario_vector4_add_vectors() {
    let mut v = Vector4::new(0i64, 0, 0, 0);
    v.add_vectors(&Vector4::new(1i64, 2, 3, 4), &Vector4::new(5i64, 6, 7, 8));
    assert_eq!((v.x, v.y, v.z, v.w), (6, 8, 10, 12));
}

#[test]
fn same_operations_work_for_i32_components() {
    let mut v = Vector4::new(1i32, 2, 3, 4);
    v.add(&Vector4::new(10i32, 20, 30, 40));
    assert_eq!((v.x, v.y, v.z, v.w), (11, 22, 33, 44));
    v.multiply_scalar(2);
    v.divide_scalar(2);
    assert_eq!((v.x, v.y, v.z, v.w), (11, 22, 33, 44));
    let mut m = Vector2::new(-9i32, 9);
    m.min(Vector2::new(0i32, 0));
    assert_eq!((m.x, m.y), (-9, 0));
}

#[test]
fn arities_agree_on_shared_fields() {
    let mut v2 = Vector2::new(9i64, -4);
    let mut v3 = Vector3::new(9i64, -4, 0);
    let mut v4 = Vector4::new(9i64, -4, 0, 0);
    v2.add_scalar(3);
    v3.add_scalar(3);
    v4.add_scalar(3);
    assert_eq!((v2.x, v2.y), (v3.x, v3.y));
    assert_eq!((v3.x, v3.y), (v4.x, v4.y));
    v2.multiply_scalar(-2);
    v3.multiply_scalar(-2);
    v4.multiply_scalar(-2);
    assert_eq!((v2.x, v2.y), (v3.x, v3.y));
    assert_eq!((v3.x, v3.y), (v4.x, v4.y));
}

#[test]
fn extreme_values_are_handled() {
    let mut v = Vector2::new(i64::MAX, i64::MIN);
    v.add_scalar(0);
    assert_eq!((v.x, v.y), (i64::MAX, i64::MIN));
    v.min(Vector2::new(0i64, 0));
    assert_eq!((v.x, v.y), (0, i64::MIN));
    v.max(Vector2::new(i64::MAX, -1));
    assert_eq!((v.x, v.y), (i64::MAX, -1));
    let mut d = Vector2::new(i64::MIN, i64::MAX);
    d.divide_scalar(1);
    assert_eq!((d.x, d.y), (i64::MIN, i64::MAX));
}
