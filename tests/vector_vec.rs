use linalg_traits::{Matrix, Vector};

#[test]
fn vec_new_with_length_is_zero_filled() {
    let v = <Vec<f64> as Vector<f64>>::new_with_length(3);
    assert_eq!(v, vec![0.0, 0.0, 0.0]);
    let w = <Vec<i64> as Vector<i64>>::new_with_length(2);
    assert_eq!(w, vec![0, 0]);
}

#[test]
fn vec_new_with_length_three_succeeds() {
    let v = <Vec<f64> as Vector<f64>>::new_with_length(3);
    assert_eq!(Vector::len(&v), 3);
}

#[test]
fn vec_len_and_is_empty() {
    let v = <Vec<f64> as Vector<f64>>::new_with_length(3);
    assert_eq!(Vector::len(&v), 3);
    assert!(!Vector::is_empty(&v));
    let e = <Vec<f64> as Vector<f64>>::new_with_length(0);
    assert_eq!(Vector::len(&e), 0);
    assert!(Vector::is_empty(&e));
}

#[test]
fn vec_from_slice_round_trip() {
    let v = Vec::from_slice(&[1.5, -2.0, 3.25]);
    let copy = Vec::from_slice(Vector::as_slice(&v));
    assert_eq!(Vector::len(&copy), 3);
    assert_eq!(copy, v);
    let empty: Vec<f64> = Vec::from_slice(&[]);
    assert!(Vector::is_empty(&empty));
}

#[test]
fn vec_vset_changes_one_element() {
    let mut v = Vec::from_slice(&[1.0, 2.0, 3.0]);
    v.vset(1, 9.0);
    assert_eq!(v, vec![1.0, 9.0, 3.0]);
}

#[test]
fn vec_add_and_sub() {
    let a = Vec::from_slice(&[1.0, 2.0, 3.0]);
    let b = Vec::from_slice(&[4.0, 5.0, 6.0]);
    assert_eq!(a.add(&b), vec![5.0, 7.0, 9.0]);
    assert_eq!(b.add(&a), a.add(&b));
    assert_eq!(a.sub(&b), vec![-3.0, -3.0, -3.0]);
    assert_eq!(a.add(&b).sub(&b), a);
}

#[test]
fn vec_add_assign_and_sub_assign() {
    let mut a = Vec::from_slice(&[1.0, 2.0, 3.0]);
    let b = Vec::from_slice(&[4.0, 5.0, 6.0]);
    a.add_assign(&b);
    assert_eq!(a, vec![5.0, 7.0, 9.0]);
    a.sub_assign(&b);
    assert_eq!(a, vec![1.0, 2.0, 3.0]);
}

#[test]
fn vec_mul_and_mul_assign() {
    let a = Vec::from_slice(&[1.0, 2.0, 3.0, 4.0]);
    assert_eq!(a.mul(2.0), vec![2.0, 4.0, 6.0, 8.0]);
    let mut b = a.clone();
    b.mul_assign(2.0);
    assert_eq!(b, vec![2.0, 4.0, 6.0, 8.0]);
}

#[test]
fn vec_div_and_div_assign() {
    let a = Vec::from_slice(&[2.0, 4.0, 6.0, 8.0]);
    assert_eq!(a.div(2.0), vec![1.0, 2.0, 3.0, 4.0]);
    let mut b = a.clone();
    b.div_assign(4.0);
    assert_eq!(b, vec![0.5, 1.0, 1.5, 2.0]);
}

#[test]
fn vec_dot_values() {
    let a = Vec::from_slice(&[1.0, 2.0, 3.0]);
    let b = Vec::from_slice(&[4.0, 5.0, 6.0]);
    assert_eq!(a.dot(&b), 32.0);
    let e: Vec<f64> = Vec::from_slice(&[]);
    assert_eq!(e.dot(&e), 0.0);
    let i = Vec::from_slice(&[1i64, -2, 3]);
    assert_eq!(i.dot(&i), 14);
}

#[test]
fn vec_integer_add_commutes_and_inverts() {
    let a = Vec::from_slice(&[1i64, -7, 40]);
    let b = Vec::from_slice(&[3i64, 5, -2]);
    assert_eq!(a.add(&b), b.add(&a));
    assert_eq!(a.add(&b).sub(&b), a);
}

#[test]
fn vec_matrix_constructors() {
    let v = Vec::from_slice(&[1.0, 2.0]);
    let square = v.new_matrix_n_by_n();
    assert_eq!(square.shape(), (2, 2));
    assert_eq!(square.as_row_slice().to_vec(), vec![0.0; 4]);
    let m_by_n = v.new_matrix_m_by_n::<0>(Some(3));
    assert_eq!(m_by_n.shape(), (3, 2));
    let n_by_m = v.new_matrix_n_by_m::<0>(Some(3));
    assert_eq!(n_by_m.shape(), (2, 3));
    assert_eq!(v.new_dmatrix_m_by_n(4).shape(), (4, 2));
    assert_eq!(v.new_dmatrix_n_by_m(4).shape(), (2, 4));
}

#[test]
fn vec_assert_same_length_on_equal_lengths() {
    let a = Vec::from_slice(&[1.0, 2.0]);
    let b = Vec::from_slice(&[3.0, 4.0]);
    a.assert_same_length(&b);
}

fn repeat_elements<S: linalg_traits::Scalar, V: Vector<S>>(v: &V) -> V {
    let mut repeated = V::new_with_length(v.len() * 2);
    for i in 0..v.len() {
        repeated.vset(2 * i, v[i]);
        repeated.vset(2 * i + 1, v[i]);
    }
    repeated
}

#[test]
fn generic_code_indexes_vectors() {
    let v = Vec::from_slice(&[1.0, 2.0, 3.0]);
    assert_eq!(repeat_elements(&v), vec![1.0, 1.0, 2.0, 2.0, 3.0, 3.0]);
}
