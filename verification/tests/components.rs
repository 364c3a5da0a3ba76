use vecmath::{IndexOutOfRange, Vector2, Vector3, Vector4};

#[test]
fn get_component_returns_constructor_arguments() {
    let v2 = Vector2::new(1i64, 2);
    assert_eq!(v2.get_component(0), Ok(1));
    assert_eq!(v2.get_component(1), Ok(2));
    let v3 = Vector3::new(1i64, 2, 3);
    assert_eq!(v3.get_component(0), Ok(1));
    assert_eq!(v3.get_component(1), Ok(2));
    assert_eq!(v3.get_component(2), Ok(3));
    let v4 = Vector4::new(1i64, 2, 3, 4);
    assert_eq!(v4.get_component(0), Ok(1));
    assert_eq!(v4.get_component(1), Ok(2));
    assert_eq!(v4.get_component(2), Ok(3));
    assert_eq!(v4.get_component(3), Ok(4));
}

#[test]
fn get_component_returns_what_set_component_wrote() {
    let mut v = Vector4::new(0i64, 0, 0, 0);
    for i in 0..4 {
        assert_eq!(v.set_component(i, 10 + i as i64), Ok(()));
    }
    for i in 0..4 {
        assert_eq!(v.get_component(i), Ok(10 + i as i64));
    }
}

#[test]
fn set_component_leaves_other_fields_alone() {
    let mut v = Vector3::new(7i64, 8, 9);
    assert_eq!(v.set_component(1, 80), Ok(()));
    assert_eq!((v.x, v.y, v.z), (7, 80, 9));
}

#[test]
fn get_component_out_of_range_carries_the_index() {
    let v2 = Vector2::new(0i64, 0);
    assert_eq!(v2.get_component(2), Err(IndexOutOfRange { index: 2 }));
    assert_eq!(v2.get_component(100), Err(IndexOutOfRange { index: 100 }));
    let v3 = Vector3::new(0i64, 0, 0);
    assert_eq!(v3.get_component(3), Err(IndexOutOfRange { index: 3 }));
    let v4 = Vector4::new(0i64, 0, 0, 0);
    assert_eq!(v4.get_component(4), Err(IndexOutOfRange { index: 4 }));
}

#[test]
fn set_component_out_of_range_carries_the_index_and_changes_nothing() {
    let mut v2 = Vector2::new(5i64, 6);
    assert_eq!(v2.set_component(2, 0), Err(IndexOutOfRange { index: 2 }));
    assert_eq!((v2.x, v2.y), (5, 6));
    let mut v3 = Vector3::new(5i64, 6, 7);
    assert_eq!(v3.set_component(3, 0), Err(IndexOutOfRange { index: 3 }));
    assert_eq!((v3.x, v3.y, v3.z), (5, 6, 7));
    let mut v4 = Vector4::new(5i64, 6, 7, 8);
    assert_eq!(v4.set_component(4, 0), Err(IndexOutOfRange { index: 4 }));
    assert_eq!((v4.x, v4.y, v4.z, v4.w), (5, 6, 7, 8));
}

#[test]
fn component_access_works_for_i32_components() {
    let mut v = Vector2::new(1i32, 2);
    assert_eq!(v.set_component(0, -1), Ok(()));
    assert_eq!(v.get_component(0), Ok(-1));
    assert_eq!(v.get_component(9), Err(IndexOutOfRange { index: 9 }));
}
