use linalg_traits::{Mat, Matrix, MatrixVectors};

#[test]
fn mat_new_with_shape_is_zero_filled() {
    let m = Mat::<f64>::new_with_shape(2, 3);
    assert_eq!(m.shape(), (2, 3));
    assert_eq!(m.as_slice().to_vec(), vec![0.0; 6]);
}

#[test]
fn mat_from_row_slice_scenario() {
    let m = Mat::<f64>::from_row_slice(2, 2, &[1.0, 2.0, 3.0, 4.0]);
    assert_eq!(m.as_slice().to_vec(), vec![1.0, 2.0, 3.0, 4.0]);
    assert_eq!(m.as_row_slice().to_vec(), vec![1.0, 2.0, 3.0, 4.0]);
    assert_eq!(m.as_col_slice().to_vec(), vec![1.0, 3.0, 2.0, 4.0]);
    assert_eq!(m.shape(), (2, 2));
}

#[test]
fn mat_row_and_col_slices_agree() {
    let by_rows = [1.0, 2.0, 3.0, 4.0, 5.0, 6.0];
    let by_cols = [1.0, 4.0, 2.0, 5.0, 3.0, 6.0];
    let a = Mat::<f64>::from_row_slice(2, 3, &by_rows);
    let b = Mat::<f64>::from_col_slice(2, 3, &by_cols);
    assert_eq!(a, b);
    assert_eq!(a.as_row_slice().to_vec(), by_rows.to_vec());
    assert_eq!(a.as_col_slice().to_vec(), by_cols.to_vec());
}

#[test]
fn mat_entries_and_indexing() {
    let m = Mat::<f64>::from_row_slice(2, 3, &[1.0, 2.0, 3.0, 4.0, 5.0, 6.0]);
    assert_eq!(m.mget(0, 2), 3.0);
    assert_eq!(m.mget(1, 0), 4.0);
    assert_eq!(m[(1, 2)], 6.0);
    assert_eq!(m[(0, 0)], 1.0);
}

#[test]
fn mat_iterators() {
    let m = Mat::<f64>::from_row_slice(2, 2, &[1.0, 2.0, 3.0, 4.0]);
    let seen: Vec<f64> = m.iter().copied().collect();
    assert_eq!(seen, vec![1.0, 2.0, 3.0, 4.0]);
    let owned: Vec<f64> = m.into_iter().collect();
    assert_eq!(owned, vec![1.0, 2.0, 3.0, 4.0]);
}

#[test]
fn mat_arithmetic() {
    let a = Mat::<f64>::from_row_slice(2, 2, &[1.0, 2.0, 3.0, 4.0]);
    let b = Mat::<f64>::from_row_slice(2, 2, &[4.0, 3.0, 2.0, 1.0]);
    assert_eq!(a.add(&b).as_slice().to_vec(), vec![5.0; 4]);
    assert_eq!(a.sub(&b).as_slice().to_vec(), vec![-3.0, -1.0, 1.0, 3.0]);
    assert_eq!(a.mul(2.0).as_slice().to_vec(), vec![2.0, 4.0, 6.0, 8.0]);
    assert_eq!(a.div(2.0).as_slice().to_vec(), vec![0.5, 1.0, 1.5, 2.0]);
    let mut c = a.clone();
    c.add_assign(&b);
    assert_eq!(c.as_slice().to_vec(), vec![5.0; 4]);
    c.sub_assign(&b);
    assert_eq!(c, a);
    c.mul_assign(3.0);
    assert_eq!(c.as_slice().to_vec(), vec![3.0, 6.0, 9.0, 12.0]);
    c.div_assign(3.0);
    assert_eq!(c, a);
    a.assert_same_shape(&b);
}

#[test]
fn mat_compatible_vectors() {
    let m = Mat::<f64>::new_with_shape(2, 3);
    assert_eq!(m.new_vector_n(), vec![0.0; 3]);
    assert_eq!(m.new_vector_m(), vec![0.0; 2]);
}

#[test]
fn mat_empty_shape() {
    let m = Mat::<f64>::new_with_shape(0, 4);
    assert_eq!(m.shape(), (0, 4));
    assert!(m.as_slice().is_empty());
}
