use std::borrow::Cow;
use vstd::prelude::*;

use crate::matrix::{
    cols_from_rows, lemma_col_major_then_row_major, lemma_entry_position, row_major, shape_fits,
    Matrix, MatrixVectors,
};
use crate::scalar::Scalar;
use crate::vector::Vector;

verus! {

/// A faer `Mat`. Verus sees nothing inside it: `FaerMat` says what it holds.
#[verifier::external_body]
#[verifier::reject_recursive_types(S)]
pub struct FaerMatrix<S> {
    matrix: faer::Mat<S>,
}

/// A faer `Mat` of one column. Verus sees nothing inside it: `FaerVec` says what it holds.
#[verifier::external_body]
#[verifier::reject_recursive_types(S)]
pub struct FaerColumn<S> {
    vector: faer::Mat<S>,
}

/// Dynamically-sized matrix held in a faer `Mat`, which stores its entries column by column.
#[verifier::reject_recursive_types(S)]
pub struct FaerMat<S: Scalar> {
    matrix: FaerMatrix<S>,
    rows: usize,
    cols: usize,
    entries: Ghost<Seq<S>>,
}

/// Dynamically-sized vector held in a faer `Mat` of one column.
#[verifier::reject_recursive_types(S)]
pub struct FaerVec<S: Scalar> {
    vector: FaerColumn<S>,
    len: usize,
    elems: Ghost<Seq<S>>,
}

impl<S: Scalar> FaerMat<S> {
    /// One entry for each row and column, in a shape that can be allocated.
    #[verifier::type_invariant]
    spec fn inv(self) -> bool {
        &&& self.entries@.len() == self.rows * self.cols
        &&& shape_fits(self.rows as int, self.cols as int)
    }
}

impl<S: Scalar> FaerVec<S> {
    /// The length is the number of elements.
    #[verifier::type_invariant]
    spec fn inv(self) -> bool {
        self.elems@.len() == self.len
    }
}

/// Entry `(i, j)` of a `rows x cols` matrix whose entries `v` holds column by column.
fn entry_by_cols<S: Scalar>(v: &Vec<S>, rows: usize, cols: usize, i: usize, j: usize) -> (r: S)
    requires
        v@.len() == rows * cols,
        i < rows,
        j < cols,
    ensures
        r == row_major(rows as nat, cols as nat, v@)[i * cols + j],
{
    proof {
        lemma_entry_position(rows as nat, cols as nat, i as nat, j as nat);
        assert(v.len() == v@.len());
    }
    v[j * rows + i]
}

/// Relies on faer's `Mat::from_fn`: a `rows x cols` matrix whose entry `(i, j)` is what the
/// closure returns for it, here entry `(i, j)` of the column-major `v`.
#[verifier::external_body]
fn faer_from_cols<S: Scalar>(rows: usize, cols: usize, v: Vec<S>) -> (r: FaerMat<S>)
    requires
        v@.len() == rows * cols,
        shape_fits(rows as int, cols as int),
    ensures
        r.nrows() == rows,
        r.ncols() == cols,
        r.row_entries() == row_major(rows as nat, cols as nat, v@),
{
    let entries = Ghost(row_major(rows as nat, cols as nat, v@));
    let matrix = faer::Mat::from_fn(rows, cols, |i, j| entry_by_cols(&v, rows, cols, i, j));
    FaerMat { matrix: FaerMatrix { matrix }, rows, cols, entries }
}

/// A `rows x cols` matrix whose entries are `v` read row by row.
fn faer_from_rows<S: Scalar>(rows: usize, cols: usize, v: Vec<S>) -> (r: FaerMat<S>)
    requires
        v@.len() == rows * cols,
        shape_fits(rows as int, cols as int),
    ensures
        r.nrows() == rows,
        r.ncols() == cols,
        r.row_entries() == v@,
{
    let by_cols = cols_from_rows(rows, cols, v.as_slice());
    proof {
        lemma_col_major_then_row_major(rows as nat, cols as nat, v@);
    }
    faer_from_cols(rows, cols, by_cols)
}

/// Relies on faer's `Index<(usize, usize)>` on `Mat`: entry `(row, col)`, in bounds.
#[verifier::external_body]
fn faer_entry<S: Scalar>(m: &FaerMat<S>, row: usize, col: usize) -> (r: &S)
    requires
        row < m.nrows(),
        col < m.ncols(),
    ensures
        *r == m.row_entries()[row * m.ncols() + col],
{
    &m.matrix.matrix[(row, col)]
}

/// Relies on faer's `IndexMut<(usize, usize)>` on `Mat`: sets entry `(row, col)`, in bounds, and
/// nothing else.
#[verifier::external_body]
fn faer_set<S: Scalar>(m: &mut FaerMat<S>, row: usize, col: usize, value: S)
    requires
        row < old(m).nrows(),
        col < old(m).ncols(),
    ensures
        final(m).nrows() == old(m).nrows(),
        final(m).ncols() == old(m).ncols(),
        final(m).row_entries() == old(m).row_entries().update(row * old(m).ncols() + col, value),
{
    m.matrix.matrix[(row, col)] = value;
    m.entries = Ghost(m.entries@.update(row * m.cols + col, value));
}

/// Relies on faer's `Clone` for `Mat`: a copy with the same shape and entries (a scalar is
/// `Copy`, so each entry is copied as it is).
#[verifier::external_body]
fn faer_clone<S: Scalar>(m: &FaerMat<S>) -> (r: FaerMat<S>)
    ensures
        r.nrows() == m.nrows(),
        r.ncols() == m.ncols(),
        r.row_entries() == m.row_entries(),
{
    let matrix = m.matrix.matrix.clone();
    FaerMat { matrix: FaerMatrix { matrix }, rows: m.rows, cols: m.cols, entries: m.entries }
}

/// Relies on faer's `Mat::from_fn`: a one-column matrix whose entry `(i, 0)` is element `i` of
/// `v`.
#[verifier::external_body]
fn faer_vector_from_vec<S: Scalar>(v: Vec<S>) -> (r: FaerVec<S>)
    ensures
        r.elems() == v@,
{
    let elems = Ghost(v@);
    let len = v.len();
    let vector = faer::Mat::from_fn(v.len(), 1, |i, _| v[i]);
    FaerVec { vector: FaerColumn { vector }, len, elems }
}

/// Relies on faer's `Mat::col_as_slice`: column 0 of a matrix that faer allocated, which is
/// contiguous, holds the elements in order.
#[verifier::external_body]
fn faer_vector_as_slice<S: Scalar>(v: &FaerVec<S>) -> (r: &[S])
    ensures
        r@ == v.elems(),
{
    v.vector.vector.col_as_slice(0)
}

/// Relies on faer's `IndexMut<(usize, usize)>` on `Mat`: sets entry `(index, 0)`, in bounds, and
/// nothing else.
#[verifier::external_body]
fn faer_vector_set<S: Scalar>(v: &mut FaerVec<S>, index: usize, value: S)
    requires
        index < old(v).elems().len(),
    ensures
        final(v).elems() == old(v).elems().update(index as int, value),
{
    v.vector.vector[(index, 0)] = value;
    v.elems = Ghost(v.elems@.update(index as int, value));
}

impl<S: Scalar> Clone for FaerMat<S> {
    fn clone(&self) -> (r: FaerMat<S>)
        ensures
            r.nrows() == self.nrows(),
            r.ncols() == self.ncols(),
            r.row_entries() == self.row_entries(),
    {
        faer_clone(self)
    }
}

impl<S: Scalar> vstd::std_specs::core::IndexSpecImpl<(usize, usize)> for FaerMat<S> {
    open spec fn index_req(&self, idx: &(usize, usize)) -> bool {
        idx.0 < self.nrows() && idx.1 < self.ncols()
    }
}

/// `m[(row, col)]` is the entry at row `row` and column `col`.
impl<S: Scalar> core::ops::Index<(usize, usize)> for FaerMat<S> {
    type Output = S;

    fn index(&self, idx: (usize, usize)) -> (r: &S)
        ensures
            *r == self.row_entries()[idx.0 * self.ncols() + idx.1],
    {
        faer_entry(self, idx.0, idx.1)
    }
}

impl<S: Scalar> Matrix<S> for FaerMat<S> {
    closed spec fn nrows(&self) -> nat {
        self.rows as nat
    }

    closed spec fn ncols(&self) -> nat {
        self.cols as nat
    }

    closed spec fn row_entries(&self) -> Seq<S> {
        self.entries@
    }

    open spec fn fixed_shape() -> Option<(nat, nat)> {
        None
    }

    open spec fn stored_by_rows() -> bool {
        false
    }

    fn is_statically_sized() -> (r: bool) {
        false
    }

    fn is_dynamically_sized() -> (r: bool) {
        true
    }

    fn is_row_major() -> (r: bool) {
        proof {
            assert(<FaerMat<S> as Matrix<S>>::stored_by_rows() == false);
        }
        false
    }

    fn is_column_major() -> (r: bool) {
        true
    }

    fn new_with_shape(rows: usize, cols: usize) -> (r: FaerMat<S>) {
        faer_from_rows(rows, cols, <Vec<S> as Vector<S>>::new_with_length(rows * cols))
    }

    fn shape(&self) -> (r: (usize, usize)) {
        proof {
            use_type_invariant(self);
            assert(<FaerMat<S> as Matrix<S>>::fixed_shape() is None);
        }
        (self.rows, self.cols)
    }

    fn from_row_slice(rows: usize, cols: usize, slice: &[S]) -> (r: FaerMat<S>) {
        faer_from_rows(rows, cols, <Vec<S> as Vector<S>>::from_slice(slice))
    }

    fn from_col_slice(rows: usize, cols: usize, slice: &[S]) -> (r: FaerMat<S>) {
        faer_from_cols(rows, cols, <Vec<S> as Vector<S>>::from_slice(slice))
    }

    fn mget(&self, row: usize, col: usize) -> (r: S) {
        *faer_entry(self, row, col)
    }

    fn mset(&mut self, row: usize, col: usize, value: S) {
        faer_set(self, row, col, value);
    }

    fn as_slice(&self) -> (r: Cow<'_, [S]>) {
        proof {
            assert(<FaerMat<S> as Matrix<S>>::stored_by_rows() == false);
        }
        Cow::Owned(self.entries_by_cols())
    }

    fn add(&self, other: &FaerMat<S>) -> (r: FaerMat<S>) {
        proof {
            use_type_invariant(self);
            use_type_invariant(other);
        }
        let a = self.entries_by_rows();
        let b = other.entries_by_rows();
        faer_from_rows(self.rows, self.cols, <Vec<S> as Vector<S>>::add(&a, &b))
    }

    fn add_assign(&mut self, other: &FaerMat<S>) {
        let r = Matrix::add(&*self, other);
        *self = r;
    }

    fn sub(&self, other: &FaerMat<S>) -> (r: FaerMat<S>) {
        proof {
            use_type_invariant(self);
            use_type_invariant(other);
        }
        let a = self.entries_by_rows();
        let b = other.entries_by_rows();
        faer_from_rows(self.rows, self.cols, <Vec<S> as Vector<S>>::sub(&a, &b))
    }

    fn sub_assign(&mut self, other: &FaerMat<S>) {
        let r = Matrix::sub(&*self, other);
        *self = r;
    }

    fn mul(&self, scalar: S) -> (r: FaerMat<S>) {
        proof {
            use_type_invariant(self);
        }
        let a = self.entries_by_rows();
        faer_from_rows(self.rows, self.cols, <Vec<S> as Vector<S>>::mul(&a, scalar))
    }

    fn mul_assign(&mut self, scalar: S) {
        let r = Matrix::mul(&*self, scalar);
        *self = r;
    }

    fn div(&self, scalar: S) -> (r: FaerMat<S>) {
        proof {
            use_type_invariant(self);
        }
        let a = self.entries_by_rows();
        faer_from_rows(self.rows, self.cols, <Vec<S> as Vector<S>>::div(&a, scalar))
    }

    fn div_assign(&mut self, scalar: S) {
        let r = Matrix::div(&*self, scalar);
        *self = r;
    }
}

impl<S: Scalar> MatrixVectors<S> for FaerMat<S> {
    type VectorN = FaerVec<S>;

    type VectorM = FaerVec<S>;
}

impl<S: Scalar> Clone for FaerVec<S> {
    fn clone(&self) -> (r: FaerVec<S>)
        ensures
            r.elems() == self.elems(),
    {
        faer_vector_from_vec(<Vec<S> as Vector<S>>::from_slice(faer_vector_as_slice(self)))
    }
}

impl<S: Scalar> vstd::std_specs::core::IndexSpecImpl<usize> for FaerVec<S> {
    open spec fn index_req(&self, index: &usize) -> bool {
        *index < self.elems().len()
    }
}

/// `v[i]` is the element at `i`.
impl<S: Scalar> core::ops::Index<usize> for FaerVec<S> {
    type Output = S;

    fn index(&self, index: usize) -> (r: &S)
        ensures
            *r == self.elems()[index as int],
    {
        &faer_vector_as_slice(self)[index]
    }
}

impl<S: Scalar> Vector<S> for FaerVec<S> {
    type MatrixNxN = FaerMat<S>;

    type MatrixMxN = FaerMat<S>;

    type DMatrixMxN = FaerMat<S>;

    type MatrixNxM = FaerMat<S>;

    type DMatrixNxM = FaerMat<S>;

    closed spec fn elems(&self) -> Seq<S> {
        self.elems@
    }

    open spec fn fixed_length() -> Option<nat> {
        None
    }

    fn is_statically_sized() -> (r: bool) {
        false
    }

    fn is_dynamically_sized() -> (r: bool) {
        true
    }

    fn new_with_length(len: usize) -> (r: FaerVec<S>) {
        faer_vector_from_vec(<Vec<S> as Vector<S>>::new_with_length(len))
    }

    fn len(&self) -> (r: usize) {
        proof {
            use_type_invariant(self);
            assert(<FaerVec<S> as Vector<S>>::fixed_length() is None);
        }
        self.len
    }

    fn is_empty(&self) -> (r: bool) {
        proof {
            use_type_invariant(self);
        }
        self.len == 0
    }

    fn from_slice(slice: &[S]) -> (r: FaerVec<S>) {
        faer_vector_from_vec(<Vec<S> as Vector<S>>::from_slice(slice))
    }

    fn as_slice(&self) -> (r: &[S]) {
        faer_vector_as_slice(self)
    }

    fn vget(&self, index: usize) -> (r: S) {
        faer_vector_as_slice(self)[index]
    }

    fn vset(&mut self, index: usize, value: S) {
        faer_vector_set(self, index, value);
    }

    fn add(&self, other: &FaerVec<S>) -> (r: FaerVec<S>) {
        let a = <Vec<S> as Vector<S>>::from_slice(faer_vector_as_slice(self));
        let b = <Vec<S> as Vector<S>>::from_slice(faer_vector_as_slice(other));
        faer_vector_from_vec(<Vec<S> as Vector<S>>::add(&a, &b))
    }

    fn add_assign(&mut self, other: &FaerVec<S>) {
        let r = Vector::add(&*self, other);
        *self = r;
    }

    fn sub(&self, other: &FaerVec<S>) -> (r: FaerVec<S>) {
        let a = <Vec<S> as Vector<S>>::from_slice(faer_vector_as_slice(self));
        let b = <Vec<S> as Vector<S>>::from_slice(faer_vector_as_slice(other));
        faer_vector_from_vec(<Vec<S> as Vector<S>>::sub(&a, &b))
    }

    fn sub_assign(&mut self, other: &FaerVec<S>) {
        let r = Vector::sub(&*self, other);
        *self = r;
    }

    fn mul(&self, scalar: S) -> (r: FaerVec<S>) {
        let a = <Vec<S> as Vector<S>>::from_slice(faer_vector_as_slice(self));
        faer_vector_from_vec(<Vec<S> as Vector<S>>::mul(&a, scalar))
    }

    fn mul_assign(&mut self, scalar: S) {
        let r = Vector::mul(&*self, scalar);
        *self = r;
    }

    fn div(&self, scalar: S) -> (r: FaerVec<S>) {
        let a = <Vec<S> as Vector<S>>::from_slice(faer_vector_as_slice(self));
        faer_vector_from_vec(<Vec<S> as Vector<S>>::div(&a, scalar))
    }

    fn div_assign(&mut self, scalar: S) {
        let r = Vector::div(&*self, scalar);
        *self = r;
    }

    fn dot(&self, other: &FaerVec<S>) -> (r: S) {
        let a = <Vec<S> as Vector<S>>::from_slice(faer_vector_as_slice(self));
        let b = <Vec<S> as Vector<S>>::from_slice(faer_vector_as_slice(other));
        a.dot(&b)
    }
}

} // verus!
