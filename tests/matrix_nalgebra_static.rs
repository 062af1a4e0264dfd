use linalg_traits::{Matrix, MatrixVectors, NaSMat};

#[test]
fn nalgebra_static_is_static_and_column_major() {
    assert!(NaSMat::<f64, 3, 3>::is_statically_sized());
    assert!(!NaSMat::<f64, 3, 3>::is_dynamically_sized());
    assert!(NaSMat::<f64, 3, 3>::is_column_major());
    assert!(!NaSMat::<f64, 3, 3>::is_row_major());
}

#[test]
fn nalgebra_static_from_row_slice_scenario() {
    let m = NaSMat::<f64, 2, 2>::from_row_slice(2, 2, &[1.0, 2.0, 3.0, 4.0]);
    assert_eq!(m.as_slice().to_vec(), vec![1.0, 3.0, 2.0, 4.0]);
    assert_eq!(m.as_row_slice().to_vec(), vec![1.0, 2.0, 3.0, 4.0]);
    assert_eq!(m.as_col_slice().to_vec(), vec![1.0, 3.0, 2.0, 4.0]);
    assert_eq!(m.shape(), (2, 2));
}

#[test]
fn nalgebra_static_row_and_col_slices_agree() {
    let by_rows = [1.0, 2.0, 3.0, 4.0, 5.0, 6.0];
    let by_cols = [1.0, 4.0, 2.0, 5.0, 3.0, 6.0];
    let a = NaSMat::<f64, 2, 3>::from_row_slice(2, 3, &by_rows);
    let b = NaSMat::<f64, 2, 3>::from_col_slice(2, 3, &by_cols);
    assert_eq!(a.as_row_slice().to_vec(), b.as_row_slice().to_vec());
    assert_eq!(a.as_row_slice().to_vec(), by_rows.to_vec());
    assert_eq!(a.as_col_slice().to_vec(), by_cols.to_vec());
    assert_eq!(a.mget(1, 0), 4.0);
    assert_eq!(a.mget(0, 2), 3.0);
}

#[test]
fn nalgebra_static_new_with_shape_is_zero_filled() {
    let m = NaSMat::<f64, 2, 3>::new_with_shape(2, 3);
    assert_eq!(m.shape(), (2, 3));
    assert_eq!(m.as_slice().to_vec(), vec![0.0; 6]);
}

#[test]
fn nalgebra_static_arithmetic() {
    let a = NaSMat::<f64, 2, 2>::from_row_slice(2, 2, &[1.0, 2.0, 3.0, 4.0]);
    let b = NaSMat::<f64, 2, 2>::from_row_slice(2, 2, &[4.0, 3.0, 2.0, 1.0]);
    assert_eq!(a.add(&b).as_row_slice().to_vec(), vec![5.0; 4]);
    assert_eq!(a.sub(&b).as_row_slice().to_vec(), vec![-3.0, -1.0, 1.0, 3.0]);
    assert_eq!(a.mul(2.0).as_row_slice().to_vec(), vec![2.0, 4.0, 6.0, 8.0]);
    assert_eq!(a.div(2.0).as_row_slice().to_vec(), vec![0.5, 1.0, 1.5, 2.0]);
    let mut c = a.clone();
    c.add_assign(&b);
    c.sub_assign(&b);
    c.mul_assign(2.0);
    c.div_assign(2.0);
    assert_eq!(c.as_row_slice().to_vec(), a.as_row_slice().to_vec());
}

#[test]
fn nalgebra_static_compatible_vectors_are_arrays() {
    let m = NaSMat::<f64, 2, 3>::new_with_shape(2, 3);
    let n: [f64; 3] = m.new_vector_n();
    let k: [f64; 2] = m.new_vector_m();
    assert_eq!(n, [0.0; 3]);
    assert_eq!(k, [0.0; 2]);
}

#[test]
fn nalgebra_static_indexing() {
    let m = NaSMat::<f64, 2, 3>::from_row_slice(2, 3, &[1.0, 2.0, 3.0, 4.0, 5.0, 6.0]);
    assert_eq!(m[(0, 1)], 2.0);
    assert_eq!(m[(1, 2)], 6.0);
}
