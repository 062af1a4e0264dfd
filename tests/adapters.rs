use linalg_traits::{
    FaerMat, FaerVec, Matrix, MatrixVectors, NaDMat, NaDVec, NdMat, NdVec, Vector,
};

fn check_matrix<M: Matrix<f64>>(row_major: bool) {
    let m = M::from_row_slice(2, 2, &[1.0, 2.0, 3.0, 4.0]);
    assert_eq!(m.shape(), (2, 2));
    assert_eq!(m.as_row_slice().to_vec(), vec![1.0, 2.0, 3.0, 4.0]);
    assert_eq!(m.as_col_slice().to_vec(), vec![1.0, 3.0, 2.0, 4.0]);
    let native = if row_major { vec![1.0, 2.0, 3.0, 4.0] } else { vec![1.0, 3.0, 2.0, 4.0] };
    assert_eq!(m.as_slice().to_vec(), native);
    assert_eq!(M::is_row_major(), row_major);
    assert_eq!(M::is_column_major(), !row_major);
    assert!(M::is_dynamically_sized());

    let c = M::from_col_slice(2, 3, &[1.0, 4.0, 2.0, 5.0, 3.0, 6.0]);
    assert_eq!(c.shape(), (2, 3));
    assert_eq!(c.as_row_slice().to_vec(), vec![1.0, 2.0, 3.0, 4.0, 5.0, 6.0]);
    assert_eq!(c.mget(1, 0), 4.0);
    assert_eq!(c[(0, 2)], 3.0);

    let mut z = M::new_with_shape(2, 3);
    assert_eq!(z.as_row_slice().to_vec(), vec![0.0; 6]);
    z.mset(1, 2, 7.0);
    assert_eq!(z.as_row_slice().to_vec(), vec![0.0, 0.0, 0.0, 0.0, 0.0, 7.0]);

    let b = M::from_row_slice(2, 2, &[4.0, 3.0, 2.0, 1.0]);
    assert_eq!(m.add(&b).as_row_slice().to_vec(), vec![5.0; 4]);
    assert_eq!(m.sub(&b).as_row_slice().to_vec(), vec![-3.0, -1.0, 1.0, 3.0]);
    assert_eq!(m.mul(2.0).as_row_slice().to_vec(), vec![2.0, 4.0, 6.0, 8.0]);
    assert_eq!(m.div(2.0).as_row_slice().to_vec(), vec![0.5, 1.0, 1.5, 2.0]);
    let mut d = m.clone();
    d.add_assign(&b);
    d.sub_assign(&b);
    d.mul_assign(4.0);
    d.div_assign(2.0);
    assert_eq!(d.as_row_slice().to_vec(), vec![2.0, 4.0, 6.0, 8.0]);
    assert_eq!(m.as_row_slice().to_vec(), vec![1.0, 2.0, 3.0, 4.0]);
}

fn check_vector<V: Vector<f64>>() {
    let x = V::from_slice(&[1.0, 2.0, 3.0]);
    let y = V::from_slice(&[4.0, 5.0, 6.0]);
    assert_eq!(x.len(), 3);
    assert!(!x.is_empty());
    assert!(V::new_with_length(0).is_empty());
    assert_eq!(x.dot(&y), 32.0);
    assert_eq!(x.as_slice(), &[1.0, 2.0, 3.0]);
    assert_eq!(x.vget(1), 2.0);
    assert_eq!(x[2], 3.0);
    assert_eq!(x.add(&y).as_slice(), &[5.0, 7.0, 9.0]);
    assert_eq!(x.sub(&y).as_slice(), &[-3.0, -3.0, -3.0]);
    assert_eq!(x.mul(2.0).as_slice(), &[2.0, 4.0, 6.0]);
    assert_eq!(x.div(2.0).as_slice(), &[0.5, 1.0, 1.5]);
    let mut z = x.clone();
    z.add_assign(&y);
    z.sub_assign(&y);
    z.mul_assign(2.0);
    z.div_assign(2.0);
    z.vset(0, 9.0);
    assert_eq!(z.as_slice(), &[9.0, 2.0, 3.0]);
    assert_eq!(V::new_with_length(2).as_slice(), &[0.0, 0.0]);
    let square = x.new_matrix_n_by_n();
    assert_eq!(square.shape(), (3, 3));
    assert_eq!(x.new_dmatrix_m_by_n(2).shape(), (2, 3));
    assert!(V::is_dynamically_sized());
}

#[test]
fn ndarray_matrix_follows_the_contract() {
    check_matrix::<NdMat<f64>>(true);
}

#[test]
fn nalgebra_matrix_follows_the_contract() {
    check_matrix::<NaDMat<f64>>(false);
}

#[test]
fn faer_matrix_follows_the_contract() {
    check_matrix::<FaerMat<f64>>(false);
}

#[test]
fn ndarray_vector_follows_the_contract() {
    check_vector::<NdVec<f64>>();
}

#[test]
fn nalgebra_vector_follows_the_contract() {
    check_vector::<NaDVec<f64>>();
}

#[test]
fn faer_vector_follows_the_contract() {
    check_vector::<FaerVec<f64>>();
}

#[test]
fn adapter_compatible_vectors() {
    let m = NaDMat::<f64>::new_with_shape(2, 3);
    assert_eq!(m.new_vector_n().as_slice(), &[0.0; 3]);
    assert_eq!(m.new_vector_m().as_slice(), &[0.0; 2]);
    let f = FaerMat::<f64>::new_with_shape(2, 3);
    assert_eq!(f.new_vector_n().len(), 3);
    let n = NdMat::<f64>::new_with_shape(2, 3);
    assert_eq!(n.new_vector_m().len(), 2);
}

#[test]
fn integer_scalars_in_adapters() {
    let a = NdVec::from_slice(&[1i64, -7, 40]);
    let b = NdVec::from_slice(&[3i64, 5, -2]);
    assert_eq!(a.add(&b).as_slice(), b.add(&a).as_slice());
    assert_eq!(a.add(&b).sub(&b).as_slice(), a.as_slice());
}
