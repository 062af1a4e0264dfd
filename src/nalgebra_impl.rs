use std::borrow::Cow;
use vstd::prelude::*;

use crate::matrix::{
    cols_from_rows, lemma_col_major_then_row_major, row_major, shape_fits, Matrix, MatrixVectors,
};
use crate::scalar::Scalar;
use crate::vector::Vector;

verus! {

/// A nalgebra `DMatrix`. Verus sees nothing inside it: `NaDMat` says what it holds.
#[verifier::external_body]
#[verifier::reject_recursive_types(S)]
pub struct NaDMatrix<S> {
    matrix: nalgebra::DMatrix<S>,
}

/// A nalgebra `DVector`. Verus sees nothing inside it: `NaDVec` says what it holds.
#[verifier::external_body]
#[verifier::reject_recursive_types(S)]
pub struct NaDVector<S> {
    vector: nalgebra::DVector<S>,
}

/// Dynamically-sized matrix held in a nalgebra `DMatrix`, which stores its entries column by column.
#[verifier::reject_recursive_types(S)]
pub struct NaDMat<S: Scalar> {
    matrix: NaDMatrix<S>,
    rows: usize,
    cols: usize,
    entries: Ghost<Seq<S>>,
}

/// Dynamically-sized vector held in a nalgebra `DVector`.
#[verifier::reject_recursive_types(S)]
pub struct NaDVec<S: Scalar> {
    vector: NaDVector<S>,
    len: usize,
    elems: Ghost<Seq<S>>,
}

impl<S: Scalar> NaDMat<S> {
    /// One entry for each row and column, in a shape that can be allocated.
    #[verifier::type_invariant]
    spec fn inv(self) -> bool {
        &&& self.entries@.len() == self.rows * self.cols
        &&& shape_fits(self.rows as int, self.cols as int)
    }
}

impl<S: Scalar> NaDVec<S> {
    /// The length is the number of elements.
    #[verifier::type_invariant]
    spec fn inv(self) -> bool {
        self.elems@.len() == self.len
    }
}

/// Relies on nalgebra's `DMatrix::from_vec`: with `rows * cols` elements it reads `v` column by
/// column.
#[verifier::external_body]
fn nalgebra_from_cols<S: Scalar>(rows: usize, cols: usize, v: Vec<S>) -> (r: NaDMat<S>)
    requires
        v@.len() == rows * cols,
        shape_fits(rows as int, cols as int),
    ensures
        r.nrows() == rows,
        r.ncols() == cols,
        r.row_entries() == row_major(rows as nat, cols as nat, v@),
{
    let entries = Ghost(row_major(rows as nat, cols as nat, v@));
    let matrix = nalgebra::DMatrix::from_vec(rows, cols, v);
    NaDMat { matrix: NaDMatrix { matrix }, rows, cols, entries }
}

/// A `rows x cols` matrix whose entries are `v` read row by row.
fn nalgebra_from_rows<S: Scalar>(rows: usize, cols: usize, v: Vec<S>) -> (r: NaDMat<S>)
    requires
        v@.len() == rows * cols,
        shape_fits(rows as int, cols as int),
    ensures
        r.nrows() == rows,
        r.ncols() == cols,
        r.row_entries() == v@,
{
    let by_cols = cols_from_rows(rows, cols, v.as_slice());
    proof {
        lemma_col_major_then_row_major(rows as nat, cols as nat, v@);
    }
    nalgebra_from_cols(rows, cols, by_cols)
}

/// Relies on nalgebra's `Index<(usize, usize)>` on `DMatrix`: entry `(row, col)`, in bounds.
#[verifier::external_body]
fn nalgebra_entry<S: Scalar>(m: &NaDMat<S>, row: usize, col: usize) -> (r: &S)
    requires
        row < m.nrows(),
        col < m.ncols(),
    ensures
        *r == m.row_entries()[row * m.ncols() + col],
{
    &m.matrix.matrix[(row, col)]
}

/// Relies on nalgebra's `IndexMut<(usize, usize)>` on `DMatrix`: sets entry `(row, col)`, in
/// bounds, and nothing else.
#[verifier::external_body]
fn nalgebra_set<S: Scalar>(m: &mut NaDMat<S>, row: usize, col: usize, value: S)
    requires
        row < old(m).nrows(),
        col < old(m).ncols(),
    ensures
        final(m).nrows() == old(m).nrows(),
        final(m).ncols() == old(m).ncols(),
        final(m).row_entries() == old(m).row_entries().update(row * old(m).ncols() + col, value),
{
    m.matrix.matrix[(row, col)] = value;
    m.entries = Ghost(m.entries@.update(row * m.cols + col, value));
}

/// Relies on nalgebra's `Clone` for `DMatrix`: a copy with the same shape and entries (a scalar
/// is `Copy`, so each entry is copied as it is).
#[verifier::external_body]
fn nalgebra_clone<S: Scalar>(m: &NaDMat<S>) -> (r: NaDMat<S>)
    ensures
        r.nrows() == m.nrows(),
        r.ncols() == m.ncols(),
        r.row_entries() == m.row_entries(),
{
    let matrix = m.matrix.matrix.clone();
    NaDMat { matrix: NaDMatrix { matrix }, rows: m.rows, cols: m.cols, entries: m.entries }
}

/// Relies on nalgebra's `DVector::from_vec`: the vector holds the elements of `v` in order.
#[verifier::external_body]
fn nalgebra_vector_from_vec<S: Scalar>(v: Vec<S>) -> (r: NaDVec<S>)
    ensures
        r.elems() == v@,
{
    let elems = Ghost(v@);
    let len = v.len();
    NaDVec { vector: NaDVector { vector: nalgebra::DVector::from_vec(v) }, len, elems }
}

/// Relies on nalgebra's `as_slice` on `DVector`, whose storage is one contiguous column: the
/// elements in order.
#[verifier::external_body]
fn nalgebra_vector_as_slice<S: Scalar>(v: &NaDVec<S>) -> (r: &[S])
    ensures
        r@ == v.elems(),
{
    v.vector.vector.as_slice()
}

/// Relies on nalgebra's `IndexMut<usize>` on `DVector`: sets element `index`, in bounds, and
/// nothing else.
#[verifier::external_body]
fn nalgebra_vector_set<S: Scalar>(v: &mut NaDVec<S>, index: usize, value: S)
    requires
        index < old(v).elems().len(),
    ensures
        final(v).elems() == old(v).elems().update(index as int, value),
{
    v.vector.vector[index] = value;
    v.elems = Ghost(v.elems@.update(index as int, value));
}

impl<S: Scalar> Clone for NaDMat<S> {
    fn clone(&self) -> (r: NaDMat<S>)
        ensures
            r.nrows() == self.nrows(),
            r.ncols() == self.ncols(),
            r.row_entries() == self.row_entries(),
    {
        nalgebra_clone(self)
    }
}

impl<S: Scalar> vstd::std_specs::core::IndexSpecImpl<(usize, usize)> for NaDMat<S> {
    open spec fn index_req(&self, idx: &(usize, usize)) -> bool {
        idx.0 < self.nrows() && idx.1 < self.ncols()
    }
}

/// `m[(row, col)]` is the entry at row `row` and column `col`.
impl<S: Scalar> core::ops::Index<(usize, usize)> for NaDMat<S> {
    type Output = S;

    fn index(&self, idx: (usize, usize)) -> (r: &S)
        ensures
            *r == self.row_entries()[idx.0 * self.ncols() + idx.1],
    {
        nalgebra_entry(self, idx.0, idx.1)
    }
}

impl<S: Scalar> Matrix<S> for NaDMat<S> {
    closed spec fn nrows(&self) -> nat {
        self.rows as nat
    }

    closed spec fn ncols(&self) -> nat {
        self.cols as nat
    }

    closed spec fn row_entries(&self) -> Seq<S> {
        self.entries@
    }

    open spec fn fixed_shape() -> Option<(nat, nat)> {
        None
    }

    open spec fn stored_by_rows() -> bool {
        false
    }

    fn is_statically_sized() -> (r: bool) {
        false
    }

    fn is_dynamically_sized() -> (r: bool) {
        true
    }

    fn is_row_major() -> (r: bool) {
        proof {
            assert(<NaDMat<S> as Matrix<S>>::stored_by_rows() == false);
        }
        false
    }

    fn is_column_major() -> (r: bool) {
        true
    }

    fn new_with_shape(rows: usize, cols: usize) -> (r: NaDMat<S>) {
        nalgebra_from_rows(rows, cols, <Vec<S> as Vector<S>>::new_with_length(rows * cols))
    }

    fn shape(&self) -> (r: (usize, usize)) {
        proof {
            use_type_invariant(self);
            assert(<NaDMat<S> as Matrix<S>>::fixed_shape() is None);
        }
        (self.rows, self.cols)
    }

    fn from_row_slice(rows: usize, cols: usize, slice: &[S]) -> (r: NaDMat<S>) {
        nalgebra_from_rows(rows, cols, <Vec<S> as Vector<S>>::from_slice(slice))
    }

    fn from_col_slice(rows: usize, cols: usize, slice: &[S]) -> (r: NaDMat<S>) {
        nalgebra_from_cols(rows, cols, <Vec<S> as Vector<S>>::from_slice(slice))
    }

    fn mget(&self, row: usize, col: usize) -> (r: S) {
        *nalgebra_entry(self, row, col)
    }

    fn mset(&mut self, row: usize, col: usize, value: S) {
        nalgebra_set(self, row, col, value);
    }

    fn as_slice(&self) -> (r: Cow<'_, [S]>) {
        proof {
            assert(<NaDMat<S> as Matrix<S>>::stored_by_rows() == false);
        }
        Cow::Owned(self.entries_by_cols())
    }

    fn add(&self, other: &NaDMat<S>) -> (r: NaDMat<S>) {
        proof {
            use_type_invariant(self);
            use_type_invariant(other);
        }
        let a = self.entries_by_rows();
        let b = other.entries_by_rows();
        nalgebra_from_rows(self.rows, self.cols, <Vec<S> as Vector<S>>::add(&a, &b))
    }

    fn add_assign(&mut self, other: &NaDMat<S>) {
        let r = Matrix::add(&*self, other);
        *self = r;
    }

    fn sub(&self, other: &NaDMat<S>) -> (r: NaDMat<S>) {
        proof {
            use_type_invariant(self);
            use_type_invariant(other);
        }
        let a = self.entries_by_rows();
        let b = other.entries_by_rows();
        nalgebra_from_rows(self.rows, self.cols, <Vec<S> as Vector<S>>::sub(&a, &b))
    }

    fn sub_assign(&mut self, other: &NaDMat<S>) {
        let r = Matrix::sub(&*self, other);
        *self = r;
    }

    fn mul(&self, scalar: S) -> (r: NaDMat<S>) {
        proof {
            use_type_invariant(self);
        }
        let a = self.entries_by_rows();
        nalgebra_from_rows(self.rows, self.cols, <Vec<S> as Vector<S>>::mul(&a, scalar))
    }

    fn mul_assign(&mut self, scalar: S) {
        let r = Matrix::mul(&*self, scalar);
        *self = r;
    }

    fn div(&self, scalar: S) -> (r: NaDMat<S>) {
        proof {
            use_type_invariant(self);
        }
        let a = self.entries_by_rows();
        nalgebra_from_rows(self.rows, self.cols, <Vec<S> as Vector<S>>::div(&a, scalar))
    }

    fn div_assign(&mut self, scalar: S) {
        let r = Matrix::div(&*self, scalar);
        *self = r;
    }
}

impl<S: Scalar> MatrixVectors<S> for NaDMat<S> {
    type VectorN = NaDVec<S>;

    type VectorM = NaDVec<S>;
}

impl<S: Scalar> Clone for NaDVec<S> {
    fn clone(&self) -> (r: NaDVec<S>)
        ensures
            r.elems() == self.elems(),
    {
        nalgebra_vector_from_vec(<Vec<S> as Vector<S>>::from_slice(nalgebra_vector_as_slice(self)))
    }
}

impl<S: Scalar> vstd::std_specs::core::IndexSpecImpl<usize> for NaDVec<S> {
    open spec fn index_req(&self, index: &usize) -> bool {
        *index < self.elems().len()
    }
}

/// `v[i]` is the element at `i`.
impl<S: Scalar> core::ops::Index<usize> for NaDVec<S> {
    type Output = S;

    fn index(&self, index: usize) -> (r: &S)
        ensures
            *r == self.elems()[index as int],
    {
        &nalgebra_vector_as_slice(self)[index]
    }
}

impl<S: Scalar> Vector<S> for NaDVec<S> {
    type MatrixNxN = NaDMat<S>;

    type MatrixMxN = NaDMat<S>;

    type DMatrixMxN = NaDMat<S>;

    type MatrixNxM = NaDMat<S>;

    type DMatrixNxM = NaDMat<S>;

    closed spec fn elems(&self) -> Seq<S> {
        self.elems@
    }

    open spec fn fixed_length() -> Option<nat> {
        None
    }

    fn is_statically_sized() -> (r: bool) {
        false
    }

    fn is_dynamically_sized() -> (r: bool) {
        true
    }

    fn new_with_length(len: usize) -> (r: NaDVec<S>) {
        nalgebra_vector_from_vec(<Vec<S> as Vector<S>>::new_with_length(len))
    }

    fn len(&self) -> (r: usize) {
        proof {
            use_type_invariant(self);
            assert(<NaDVec<S> as Vector<S>>::fixed_length() is None);
        }
        self.len
    }

    fn is_empty(&self) -> (r: bool) {
        proof {
            use_type_invariant(self);
        }
        self.len == 0
    }

    fn from_slice(slice: &[S]) -> (r: NaDVec<S>) {
        nalgebra_vector_from_vec(<Vec<S> as Vector<S>>::from_slice(slice))
    }

    fn as_slice(&self) -> (r: &[S]) {
        nalgebra_vector_as_slice(self)
    }

    fn vget(&self, index: usize) -> (r: S) {
        nalgebra_vector_as_slice(self)[index]
    }

    fn vset(&mut self, index: usize, value: S) {
        nalgebra_vector_set(self, index, value);
    }

    fn add(&self, other: &NaDVec<S>) -> (r: NaDVec<S>) {
        let a = <Vec<S> as Vector<S>>::from_slice(nalgebra_vector_as_slice(self));
        let b = <Vec<S> as Vector<S>>::from_slice(nalgebra_vector_as_slice(other));
        nalgebra_vector_from_vec(<Vec<S> as Vector<S>>::add(&a, &b))
    }

    fn add_assign(&mut self, other: &NaDVec<S>) {
        let r = Vector::add(&*self, other);
        *self = r;
    }

    fn sub(&self, other: &NaDVec<S>) -> (r: NaDVec<S>) {
        let a = <Vec<S> as Vector<S>>::from_slice(nalgebra_vector_as_slice(self));
        let b = <Vec<S> as Vector<S>>::from_slice(nalgebra_vector_as_slice(other));
        nalgebra_vector_from_vec(<Vec<S> as Vector<S>>::sub(&a, &b))
    }

    fn sub_assign(&mut self, other: &NaDVec<S>) {
        let r = Vector::sub(&*self, other);
        *self = r;
    }

    fn mul(&self, scalar: S) -> (r: NaDVec<S>) {
        let a = <Vec<S> as Vector<S>>::from_slice(nalgebra_vector_as_slice(self));
        nalgebra_vector_from_vec(<Vec<S> as Vector<S>>::mul(&a, scalar))
    }

    fn mul_assign(&mut self, scalar: S) {
        let r = Vector::mul(&*self, scalar);
        *self = r;
    }

    fn div(&self, scalar: S) -> (r: NaDVec<S>) {
        let a = <Vec<S> as Vector<S>>::from_slice(nalgebra_vector_as_slice(self));
        nalgebra_vector_from_vec(<Vec<S> as Vector<S>>::div(&a, scalar))
    }

    fn div_assign(&mut self, scalar: S) {
        let r = Vector::div(&*self, scalar);
        *self = r;
    }

    fn dot(&self, other: &NaDVec<S>) -> (r: S) {
        let a = <Vec<S> as Vector<S>>::from_slice(nalgebra_vector_as_slice(self));
        let b = <Vec<S> as Vector<S>>::from_slice(nalgebra_vector_as_slice(other));
        a.dot(&b)
    }
}


/// A nalgebra `SMatrix`. Verus sees nothing inside it: `NaSMat` says what it holds.
#[verifier::external_body]
#[verifier::reject_recursive_types(S)]
pub struct NaSMatrix<S, const M: usize, const N: usize> {
    matrix: nalgebra::SMatrix<S, M, N>,
}

/// Statically-sized `M x N` matrix held in a nalgebra `SMatrix`, which stores its entries column
/// by column.
#[verifier::reject_recursive_types(S)]
pub struct NaSMat<S: Scalar, const M: usize, const N: usize> {
    matrix: NaSMatrix<S, M, N>,
    entries: Ghost<Seq<S>>,
}

impl<S: Scalar, const M: usize, const N: usize> NaSMat<S, M, N> {
    /// One entry for each row and column.
    #[verifier::type_invariant]
    spec fn inv(self) -> bool {
        self.entries@.len() == M * N
    }

    /// What the matrix specification functions are on this type.
    proof fn lemma_spec_values(&self)
        ensures
            self.nrows() == M,
            self.ncols() == N,
            self.row_entries() == self.entries@,
    {
    }
}

/// Relies on nalgebra's `SMatrix::from_column_slice`: with `M * N` elements it reads `v` column
/// by column.
#[verifier::external_body]
fn nalgebra_static_from_cols<S: Scalar, const M: usize, const N: usize>(v: Vec<S>) -> (r: NaSMat<S, M, N>)
    requires
        v@.len() == M * N,
    ensures
        r.row_entries() == row_major(M as nat, N as nat, v@),
{
    let entries = Ghost(row_major(M as nat, N as nat, v@));
    let matrix = nalgebra::SMatrix::<S, M, N>::from_column_slice(&v);
    NaSMat { matrix: NaSMatrix { matrix }, entries }
}

/// An `M x N` matrix whose entries are `v` read row by row.
fn nalgebra_static_from_rows<S: Scalar, const M: usize, const N: usize>(v: Vec<S>) -> (r: NaSMat<S, M, N>)
    requires
        v@.len() == M * N,
    ensures
        r.row_entries() == v@,
{
    let by_cols = cols_from_rows(M, N, v.as_slice());
    proof {
        lemma_col_major_then_row_major(M as nat, N as nat, v@);
    }
    nalgebra_static_from_cols(by_cols)
}

/// Relies on nalgebra's `Index<(usize, usize)>` on `SMatrix`: entry `(row, col)`, in bounds.
#[verifier::external_body]
fn nalgebra_static_entry<S: Scalar, const M: usize, const N: usize>(m: &NaSMat<S, M, N>, row: usize, col: usize) -> (r: &S)
    requires
        row < M,
        col < N,
    ensures
        *r == m.row_entries()[row * N + col],
{
    &m.matrix.matrix[(row, col)]
}

/// Relies on nalgebra's `IndexMut<(usize, usize)>` on `SMatrix`: sets entry `(row, col)`, in
/// bounds, and nothing else.
#[verifier::external_body]
fn nalgebra_static_set<S: Scalar, const M: usize, const N: usize>(m: &mut NaSMat<S, M, N>, row: usize, col: usize, value: S)
    requires
        row < M,
        col < N,
    ensures
        final(m).row_entries() == old(m).row_entries().update(row * N + col, value),
{
    m.matrix.matrix[(row, col)] = value;
    m.entries = Ghost(m.entries@.update(row * N + col, value));
}

/// Relies on nalgebra's `Clone` for `SMatrix`: a copy with the same entries (a scalar is `Copy`,
/// so each entry is copied as it is).
#[verifier::external_body]
fn nalgebra_static_clone<S: Scalar, const M: usize, const N: usize>(m: &NaSMat<S, M, N>) -> (r: NaSMat<S, M, N>)
    ensures
        r.row_entries() == m.row_entries(),
{
    NaSMat { matrix: NaSMatrix { matrix: m.matrix.matrix.clone() }, entries: m.entries }
}

impl<S: Scalar, const M: usize, const N: usize> Clone for NaSMat<S, M, N> {
    fn clone(&self) -> (r: NaSMat<S, M, N>)
        ensures
            r.nrows() == self.nrows(),
            r.ncols() == self.ncols(),
            r.row_entries() == self.row_entries(),
    {
        nalgebra_static_clone(self)
    }
}

impl<S: Scalar, const M: usize, const N: usize> vstd::std_specs::core::IndexSpecImpl<(usize, usize)> for NaSMat<S, M, N> {
    open spec fn index_req(&self, idx: &(usize, usize)) -> bool {
        idx.0 < self.nrows() && idx.1 < self.ncols()
    }
}

/// `m[(row, col)]` is the entry at row `row` and column `col`.
impl<S: Scalar, const M: usize, const N: usize> core::ops::Index<(usize, usize)> for NaSMat<S, M, N> {
    type Output = S;

    fn index(&self, idx: (usize, usize)) -> (r: &S)
        ensures
            *r == self.row_entries()[idx.0 * self.ncols() + idx.1],
    {
        nalgebra_static_entry(self, idx.0, idx.1)
    }
}

impl<S: Scalar, const M: usize, const N: usize> Matrix<S> for NaSMat<S, M, N> {
    closed spec fn nrows(&self) -> nat {
        M as nat
    }

    closed spec fn ncols(&self) -> nat {
        N as nat
    }

    closed spec fn row_entries(&self) -> Seq<S> {
        self.entries@
    }

    open spec fn fixed_shape() -> Option<(nat, nat)> {
        Some((M as nat, N as nat))
    }

    open spec fn stored_by_rows() -> bool {
        false
    }

    fn is_statically_sized() -> (r: bool) {
        true
    }

    fn is_dynamically_sized() -> (r: bool) {
        false
    }

    fn is_row_major() -> (r: bool) {
        proof {
            assert(<NaSMat<S, M, N> as Matrix<S>>::stored_by_rows() == false);
        }
        false
    }

    fn is_column_major() -> (r: bool) {
        true
    }

    fn new_with_shape(rows: usize, cols: usize) -> (r: NaSMat<S, M, N>) {
        nalgebra_static_from_rows(<Vec<S> as Vector<S>>::new_with_length(rows * cols))
    }

    fn shape(&self) -> (r: (usize, usize)) {
        proof {
            use_type_invariant(self);
            self.lemma_spec_values();
            assert(<NaSMat<S, M, N> as Matrix<S>>::fixed_shape() == Some((M as nat, N as nat)));
        }
        (M, N)
    }

    fn from_row_slice(rows: usize, cols: usize, slice: &[S]) -> (r: NaSMat<S, M, N>) {
        nalgebra_static_from_rows(<Vec<S> as Vector<S>>::from_slice(slice))
    }

    fn from_col_slice(rows: usize, cols: usize, slice: &[S]) -> (r: NaSMat<S, M, N>) {
        nalgebra_static_from_cols(<Vec<S> as Vector<S>>::from_slice(slice))
    }

    fn mget(&self, row: usize, col: usize) -> (r: S) {
        proof {
            self.lemma_spec_values();
        }
        *nalgebra_static_entry(self, row, col)
    }

    fn mset(&mut self, row: usize, col: usize, value: S) {
        proof {
            self.lemma_spec_values();
        }
        nalgebra_static_set(self, row, col, value);
        proof {
            self.lemma_spec_values();
        }
    }

    fn as_slice(&self) -> (r: Cow<'_, [S]>) {
        proof {
            assert(<NaSMat<S, M, N> as Matrix<S>>::stored_by_rows() == false);
        }
        Cow::Owned(self.entries_by_cols())
    }

    fn add(&self, other: &NaSMat<S, M, N>) -> (r: NaSMat<S, M, N>) {
        proof {
            use_type_invariant(self);
            use_type_invariant(other);
        }
        let a = self.entries_by_rows();
        let b = other.entries_by_rows();
        nalgebra_static_from_rows(<Vec<S> as Vector<S>>::add(&a, &b))
    }

    fn add_assign(&mut self, other: &NaSMat<S, M, N>) {
        let r = Matrix::add(&*self, other);
        *self = r;
    }

    fn sub(&self, other: &NaSMat<S, M, N>) -> (r: NaSMat<S, M, N>) {
        proof {
            use_type_invariant(self);
            use_type_invariant(other);
        }
        let a = self.entries_by_rows();
        let b = other.entries_by_rows();
        nalgebra_static_from_rows(<Vec<S> as Vector<S>>::sub(&a, &b))
    }

    fn sub_assign(&mut self, other: &NaSMat<S, M, N>) {
        let r = Matrix::sub(&*self, other);
        *self = r;
    }

    fn mul(&self, scalar: S) -> (r: NaSMat<S, M, N>) {
        proof {
            use_type_invariant(self);
        }
        let a = self.entries_by_rows();
        nalgebra_static_from_rows(<Vec<S> as Vector<S>>::mul(&a, scalar))
    }

    fn mul_assign(&mut self, scalar: S) {
        let r = Matrix::mul(&*self, scalar);
        *self = r;
    }

    fn div(&self, scalar: S) -> (r: NaSMat<S, M, N>) {
        proof {
            use_type_invariant(self);
        }
        let a = self.entries_by_rows();
        nalgebra_static_from_rows(<Vec<S> as Vector<S>>::div(&a, scalar))
    }

    fn div_assign(&mut self, scalar: S) {
        let r = Matrix::div(&*self, scalar);
        *self = r;
    }
}

impl<S: Scalar, const M: usize, const N: usize> MatrixVectors<S> for NaSMat<S, M, N> {
    type VectorN = [S; N];

    type VectorM = [S; M];
}

} // verus!
