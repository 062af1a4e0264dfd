use std::borrow::Cow;
use vstd::prelude::*;

use crate::matrix::{rows_from_cols, shape_fits, Matrix, MatrixVectors};
use crate::scalar::Scalar;
use crate::vector::Vector;

verus! {

/// An ndarray `Array2`. Verus sees nothing inside it: `NdMat` says what it holds.
#[verifier::external_body]
#[verifier::reject_recursive_types(S)]
pub struct NdArray2<S> {
    array: ndarray::Array2<S>,
}

/// An ndarray `Array1`. Verus sees nothing inside it: `NdVec` says what it holds.
#[verifier::external_body]
#[verifier::reject_recursive_types(S)]
pub struct NdArray1<S> {
    array: ndarray::Array1<S>,
}

/// Dynamically-sized matrix held in an ndarray `Array2`, which stores its entries row by row.
#[verifier::reject_recursive_types(S)]
pub struct NdMat<S: Scalar> {
    array: NdArray2<S>,
    rows: usize,
    cols: usize,
    entries: Ghost<Seq<S>>,
}

/// Dynamically-sized vector held in an ndarray `Array1`.
#[verifier::reject_recursive_types(S)]
pub struct NdVec<S: Scalar> {
    array: NdArray1<S>,
    len: usize,
    elems: Ghost<Seq<S>>,
}

impl<S: Scalar> NdMat<S> {
    /// One entry for each row and column, in a shape that ndarray accepts.
    #[verifier::type_invariant]
    spec fn inv(self) -> bool {
        &&& self.entries@.len() == self.rows * self.cols
        &&& shape_fits(self.rows as int, self.cols as int)
    }
}

impl<S: Scalar> NdVec<S> {
    /// The length is the number of elements.
    #[verifier::type_invariant]
    spec fn inv(self) -> bool {
        self.elems@.len() == self.len
    }
}

/// Relies on ndarray's `Array2::from_shape_vec`: with `rows * cols` elements and a shape whose
/// dimensions and size fit in `isize`, it succeeds and reads `v` row by row.
#[verifier::external_body]
fn ndarray2_from_rows<S: Scalar>(rows: usize, cols: usize, v: Vec<S>) -> (r: NdMat<S>)
    requires
        v@.len() == rows * cols,
        shape_fits(rows as int, cols as int),
    ensures
        r.nrows() == rows,
        r.ncols() == cols,
        r.row_entries() == v@,
{
    let entries = Ghost(v@);
    let array = ndarray::Array2::from_shape_vec((rows, cols), v).unwrap();
    NdMat { array: NdArray2 { array }, rows, cols, entries }
}

/// Relies on ndarray's `Index<(usize, usize)>` on `Array2`: entry `(row, col)`, in bounds.
#[verifier::external_body]
fn ndarray2_entry<S: Scalar>(m: &NdMat<S>, row: usize, col: usize) -> (r: &S)
    requires
        row < m.nrows(),
        col < m.ncols(),
    ensures
        *r == m.row_entries()[row * m.ncols() + col],
{
    &m.array.array[(row, col)]
}

/// Relies on ndarray's `IndexMut<(usize, usize)>` on `Array2`: sets entry `(row, col)`, in
/// bounds, and nothing else.
#[verifier::external_body]
fn ndarray2_set<S: Scalar>(m: &mut NdMat<S>, row: usize, col: usize, value: S)
    requires
        row < old(m).nrows(),
        col < old(m).ncols(),
    ensures
        final(m).nrows() == old(m).nrows(),
        final(m).ncols() == old(m).ncols(),
        final(m).row_entries() == old(m).row_entries().update(row * old(m).ncols() + col, value),
{
    m.array.array[(row, col)] = value;
    m.entries = Ghost(m.entries@.update(row * m.cols + col, value));
}

/// Relies on ndarray's `Clone` for `Array2`: a copy with the same shape and entries (a scalar is
/// `Copy`, so each entry is copied as it is).
#[verifier::external_body]
fn ndarray2_clone<S: Scalar>(m: &NdMat<S>) -> (r: NdMat<S>)
    ensures
        r.nrows() == m.nrows(),
        r.ncols() == m.ncols(),
        r.row_entries() == m.row_entries(),
{
    NdMat { array: NdArray2 { array: m.array.array.clone() }, rows: m.rows, cols: m.cols, entries: m.entries }
}

/// Relies on ndarray's `Array1::from(Vec)`: the array holds the elements of `v` in order.
#[verifier::external_body]
fn ndarray1_from_vec<S: Scalar>(v: Vec<S>) -> (r: NdVec<S>)
    ensures
        r.elems() == v@,
{
    let elems = Ghost(v@);
    let len = v.len();
    NdVec { array: NdArray1 { array: ndarray::Array1::from(v) }, len, elems }
}

/// Relies on ndarray's `Array1::as_slice`: an array made from a `Vec`, and changed only element
/// by element since, is contiguous in standard order, so the slice exists and holds the
/// elements in order.
#[verifier::external_body]
fn ndarray1_as_slice<S: Scalar>(v: &NdVec<S>) -> (r: &[S])
    ensures
        r@ == v.elems(),
{
    v.array.array.as_slice().unwrap()
}

/// Relies on ndarray's `IndexMut<usize>` on `Array1`: sets element `index`, in bounds, and
/// nothing else.
#[verifier::external_body]
fn ndarray1_set<S: Scalar>(v: &mut NdVec<S>, index: usize, value: S)
    requires
        index < old(v).elems().len(),
    ensures
        final(v).elems() == old(v).elems().update(index as int, value),
{
    v.array.array[index] = value;
    v.elems = Ghost(v.elems@.update(index as int, value));
}

impl<S: Scalar> Clone for NdMat<S> {
    fn clone(&self) -> (r: NdMat<S>)
        ensures
            r.nrows() == self.nrows(),
            r.ncols() == self.ncols(),
            r.row_entries() == self.row_entries(),
    {
        ndarray2_clone(self)
    }
}

impl<S: Scalar> vstd::std_specs::core::IndexSpecImpl<(usize, usize)> for NdMat<S> {
    open spec fn index_req(&self, idx: &(usize, usize)) -> bool {
        idx.0 < self.nrows() && idx.1 < self.ncols()
    }
}

/// `m[(row, col)]` is the entry at row `row` and column `col`.
impl<S: Scalar> core::ops::Index<(usize, usize)> for NdMat<S> {
    type Output = S;

    fn index(&self, idx: (usize, usize)) -> (r: &S)
        ensures
            *r == self.row_entries()[idx.0 * self.ncols() + idx.1],
    {
        ndarray2_entry(self, idx.0, idx.1)
    }
}

impl<S: Scalar> Matrix<S> for NdMat<S> {
    closed spec fn nrows(&self) -> nat {
        self.rows as nat
    }

    closed spec fn ncols(&self) -> nat {
        self.cols as nat
    }

    closed spec fn row_entries(&self) -> Seq<S> {
        self.entries@
    }

    open spec fn fixed_shape() -> Option<(nat, nat)> {
        None
    }

    open spec fn stored_by_rows() -> bool {
        true
    }

    fn is_statically_sized() -> (r: bool) {
        false
    }

    fn is_dynamically_sized() -> (r: bool) {
        true
    }

    fn is_row_major() -> (r: bool) {
        proof {
            assert(<NdMat<S> as Matrix<S>>::stored_by_rows() == true);
        }
        true
    }

    fn is_column_major() -> (r: bool) {
        false
    }

    fn new_with_shape(rows: usize, cols: usize) -> (r: NdMat<S>) {
        ndarray2_from_rows(rows, cols, <Vec<S> as Vector<S>>::new_with_length(rows * cols))
    }

    fn shape(&self) -> (r: (usize, usize)) {
        proof {
            use_type_invariant(self);
            assert(<NdMat<S> as Matrix<S>>::fixed_shape() is None);
        }
        (self.rows, self.cols)
    }

    fn from_row_slice(rows: usize, cols: usize, slice: &[S]) -> (r: NdMat<S>) {
        ndarray2_from_rows(rows, cols, <Vec<S> as Vector<S>>::from_slice(slice))
    }

    fn from_col_slice(rows: usize, cols: usize, slice: &[S]) -> (r: NdMat<S>) {
        ndarray2_from_rows(rows, cols, rows_from_cols(rows, cols, slice))
    }

    fn mget(&self, row: usize, col: usize) -> (r: S) {
        *ndarray2_entry(self, row, col)
    }

    fn mset(&mut self, row: usize, col: usize, value: S) {
        ndarray2_set(self, row, col, value);
    }

    fn as_slice(&self) -> (r: Cow<'_, [S]>) {
        proof {
            assert(<NdMat<S> as Matrix<S>>::stored_by_rows() == true);
        }
        Cow::Owned(self.entries_by_rows())
    }

    fn add(&self, other: &NdMat<S>) -> (r: NdMat<S>) {
        proof {
            use_type_invariant(self);
            use_type_invariant(other);
        }
        let a = self.entries_by_rows();
        let b = other.entries_by_rows();
        ndarray2_from_rows(self.rows, self.cols, <Vec<S> as Vector<S>>::add(&a, &b))
    }

    fn add_assign(&mut self, other: &NdMat<S>) {
        let r = Matrix::add(&*self, other);
        *self = r;
    }

    fn sub(&self, other: &NdMat<S>) -> (r: NdMat<S>) {
        proof {
            use_type_invariant(self);
            use_type_invariant(other);
        }
        let a = self.entries_by_rows();
        let b = other.entries_by_rows();
        ndarray2_from_rows(self.rows, self.cols, <Vec<S> as Vector<S>>::sub(&a, &b))
    }

    fn sub_assign(&mut self, other: &NdMat<S>) {
        let r = Matrix::sub(&*self, other);
        *self = r;
    }

    fn mul(&self, scalar: S) -> (r: NdMat<S>) {
        proof {
            use_type_invariant(self);
        }
        let a = self.entries_by_rows();
        ndarray2_from_rows(self.rows, self.cols, <Vec<S> as Vector<S>>::mul(&a, scalar))
    }

    fn mul_assign(&mut self, scalar: S) {
        let r = Matrix::mul(&*self, scalar);
        *self = r;
    }

    fn div(&self, scalar: S) -> (r: NdMat<S>) {
        proof {
            use_type_invariant(self);
        }
        let a = self.entries_by_rows();
        ndarray2_from_rows(self.rows, self.cols, <Vec<S> as Vector<S>>::div(&a, scalar))
    }

    fn div_assign(&mut self, scalar: S) {
        let r = Matrix::div(&*self, scalar);
        *self = r;
    }
}

impl<S: Scalar> MatrixVectors<S> for NdMat<S> {
    type VectorN = NdVec<S>;

    type VectorM = NdVec<S>;
}

impl<S: Scalar> Clone for NdVec<S> {
    fn clone(&self) -> (r: NdVec<S>)
        ensures
            r.elems() == self.elems(),
    {
        ndarray1_from_vec(<Vec<S> as Vector<S>>::from_slice(ndarray1_as_slice(self)))
    }
}

/// `v[i]` is the element at `i`.
impl<S: Scalar> core::ops::Index<usize> for NdVec<S> {
    type Output = S;

    fn index(&self, index: usize) -> (r: &S)
        ensures
            *r == self.elems()[index as int],
    {
        &ndarray1_as_slice(self)[index]
    }
}

impl<S: Scalar> vstd::std_specs::core::IndexSpecImpl<usize> for NdVec<S> {
    open spec fn index_req(&self, index: &usize) -> bool {
        *index < self.elems().len()
    }
}

impl<S: Scalar> Vector<S> for NdVec<S> {
    type MatrixNxN = NdMat<S>;

    type MatrixMxN = NdMat<S>;

    type DMatrixMxN = NdMat<S>;

    type MatrixNxM = NdMat<S>;

    type DMatrixNxM = NdMat<S>;

    closed spec fn elems(&self) -> Seq<S> {
        self.elems@
    }

    open spec fn fixed_length() -> Option<nat> {
        None
    }

    fn is_statically_sized() -> (r: bool) {
        false
    }

    fn is_dynamically_sized() -> (r: bool) {
        true
    }

    fn new_with_length(len: usize) -> (r: NdVec<S>) {
        ndarray1_from_vec(<Vec<S> as Vector<S>>::new_with_length(len))
    }

    fn len(&self) -> (r: usize) {
        proof {
            use_type_invariant(self);
            assert(<NdVec<S> as Vector<S>>::fixed_length() is None);
        }
        self.len
    }

    fn is_empty(&self) -> (r: bool) {
        proof {
            use_type_invariant(self);
        }
        self.len == 0
    }

    fn from_slice(slice: &[S]) -> (r: NdVec<S>) {
        ndarray1_from_vec(<Vec<S> as Vector<S>>::from_slice(slice))
    }

    fn as_slice(&self) -> (r: &[S]) {
        ndarray1_as_slice(self)
    }

    fn vget(&self, index: usize) -> (r: S) {
        ndarray1_as_slice(self)[index]
    }

    fn vset(&mut self, index: usize, value: S) {
        ndarray1_set(self, index, value);
    }

    fn add(&self, other: &NdVec<S>) -> (r: NdVec<S>) {
        let a = <Vec<S> as Vector<S>>::from_slice(ndarray1_as_slice(self));
        let b = <Vec<S> as Vector<S>>::from_slice(ndarray1_as_slice(other));
        ndarray1_from_vec(<Vec<S> as Vector<S>>::add(&a, &b))
    }

    fn add_assign(&mut self, other: &NdVec<S>) {
        let r = Vector::add(&*self, other);
        *self = r;
    }

    fn sub(&self, other: &NdVec<S>) -> (r: NdVec<S>) {
        let a = <Vec<S> as Vector<S>>::from_slice(ndarray1_as_slice(self));
        let b = <Vec<S> as Vector<S>>::from_slice(ndarray1_as_slice(other));
        ndarray1_from_vec(<Vec<S> as Vector<S>>::sub(&a, &b))
    }

    fn sub_assign(&mut self, other: &NdVec<S>) {
        let r = Vector::sub(&*self, other);
        *self = r;
    }

    fn mul(&self, scalar: S) -> (r: NdVec<S>) {
        let a = <Vec<S> as Vector<S>>::from_slice(ndarray1_as_slice(self));
        ndarray1_from_vec(<Vec<S> as Vector<S>>::mul(&a, scalar))
    }

    fn mul_assign(&mut self, scalar: S) {
        let r = Vector::mul(&*self, scalar);
        *self = r;
    }

    fn div(&self, scalar: S) -> (r: NdVec<S>) {
        let a = <Vec<S> as Vector<S>>::from_slice(ndarray1_as_slice(self));
        ndarray1_from_vec(<Vec<S> as Vector<S>>::div(&a, scalar))
    }

    fn div_assign(&mut self, scalar: S) {
        let r = Vector::div(&*self, scalar);
        *self = r;
    }

    fn dot(&self, other: &NdVec<S>) -> (r: S) {
        let a = <Vec<S> as Vector<S>>::from_slice(ndarray1_as_slice(self));
        let b = <Vec<S> as Vector<S>>::from_slice(ndarray1_as_slice(other));
        a.dot(&b)
    }
}

} // verus!
