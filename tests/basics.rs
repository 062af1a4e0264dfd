use linalg_traits::{Mat, Matrix, Vector};

#[test]
fn matrix_order_test_mat() {
    assert!(Mat::<f64>::is_row_major());
    assert!(!Mat::<f64>::is_column_major());
}

#[test]
fn matrix_dynamic_vs_static_test_mat() {
    assert!(Mat::<f64>::is_dynamically_sized());
    assert!(!Mat::<f64>::is_statically_sized());
}

#[test]
fn vector_dynamic_vs_static_test_mat() {
    assert!(Vec::<f64>::is_dynamically_sized());
    assert!(!Vec::<f64>::is_statically_sized());
}

#[test]
fn vector_dot_test_vec() {
    let x = Vec::from_slice(&[1.0, 2.0, 3.0]);
    let y = Vec::from_slice(&[4.0, 5.0, 6.0]);
    let z = x.dot(&y);
    assert_eq!(z, 32.0);
}

#[test]
fn vector_vget_test_vec() {
    let x = Vec::from_slice(&[1.0, 2.0, 3.0]);
    assert_eq!(x.vget(0), 1.0);
    assert_eq!(x.vget(1), 2.0);
    assert_eq!(x.vget(2), 3.0);
}

#[test]
fn test_indexing() {
    let mut mat = Mat::<f64>::new_with_shape(2, 2);
    mat.mset(0, 0, 1.0);
    mat.mset(0, 1, 2.0);
    mat.mset(1, 0, 3.0);
    mat.mset(1, 1, 4.0);
    assert_eq!(mat[(0, 0)], 1.0);
    assert_eq!(mat[(0, 1)], 2.0);
    assert_eq!(mat[(1, 0)], 3.0);
    assert_eq!(mat[(1, 1)], 4.0);
}
