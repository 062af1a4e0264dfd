use linalg_traits::{Matrix, NaSMat, Vector};

#[test]
fn array_is_statically_sized() {
    assert!(<[f64; 3] as Vector<f64>>::is_statically_sized());
    assert!(!<[f64; 3] as Vector<f64>>::is_dynamically_sized());
}

#[test]
fn array_new_with_length_is_zero_filled() {
    let v = <[f64; 3] as Vector<f64>>::new_with_length(3);
    assert_eq!(v, [0.0, 0.0, 0.0]);
    assert_eq!(Vector::len(&v), 3);
    assert!(!Vector::is_empty(&v));
}

#[test]
fn array_of_length_zero_is_empty() {
    let v = <[f64; 0] as Vector<f64>>::new_with_length(0);
    assert_eq!(Vector::len(&v), 0);
    assert!(Vector::is_empty(&v));
}

#[test]
fn array_from_slice_round_trip() {
    let v = <[f64; 3] as Vector<f64>>::from_slice(&[1.0, 2.0, 3.0]);
    assert_eq!(v, [1.0, 2.0, 3.0]);
    let copy = <[f64; 3] as Vector<f64>>::from_slice(Vector::as_slice(&v));
    assert_eq!(copy, v);
}

#[test]
fn array_vget_and_vset() {
    let mut v = [1.0, 2.0, 3.0];
    assert_eq!(v.vget(2), 3.0);
    v.vset(0, -1.0);
    assert_eq!(v, [-1.0, 2.0, 3.0]);
}

#[test]
fn array_arithmetic() {
    let a = [1.0, 2.0, 3.0, 4.0];
    let b = [4.0, 3.0, 2.0, 1.0];
    assert_eq!(Vector::add(&a, &b), [5.0, 5.0, 5.0, 5.0]);
    assert_eq!(Vector::sub(&a, &b), [-3.0, -1.0, 1.0, 3.0]);
    assert_eq!(Vector::mul(&a, 2.0), [2.0, 4.0, 6.0, 8.0]);
    assert_eq!(Vector::div(&a, 2.0), [0.5, 1.0, 1.5, 2.0]);
    let mut c = a;
    Vector::mul_assign(&mut c, 2.0);
    assert_eq!(c, [2.0, 4.0, 6.0, 8.0]);
    Vector::div_assign(&mut c, 2.0);
    assert_eq!(c, a);
    Vector::add_assign(&mut c, &b);
    assert_eq!(c, [5.0, 5.0, 5.0, 5.0]);
    Vector::sub_assign(&mut c, &b);
    assert_eq!(c, a);
}

#[test]
fn array_dot() {
    let a = [1.0, 2.0, 3.0];
    let b = [4.0, 5.0, 6.0];
    assert_eq!(a.dot(&b), 32.0);
}

#[test]
fn array_square_matrix_is_static() {
    let v = [1.0, 2.0];
    let m: NaSMat<f64, 2, 2> = v.new_matrix_n_by_n();
    assert_eq!(m.shape(), (2, 2));
    assert!(NaSMat::<f64, 2, 2>::is_statically_sized());
}

#[test]
fn array_m_by_n_matrix_takes_type_parameter() {
    let v = [1.0, 2.0];
    let m = v.new_matrix_m_by_n::<3>(None);
    assert_eq!(m.shape(), (3, 2));
    let n = v.new_matrix_n_by_m::<3>(None);
    assert_eq!(n.shape(), (2, 3));
}
