use std::borrow::Cow;
use vstd::prelude::*;
use vstd::std_specs::slice::into_iter_elts;

use crate::matrix::{lemma_entry_position, rows_from_cols, Matrix, MatrixVectors};
use crate::scalar::Scalar;
use crate::vector::Vector;

verus! {

/// Dynamically-sized matrix stored row by row in a flat `Vec`.
///
/// Entry `(i, j)` of a `rows x cols` matrix stands at `i * cols + j` of the buffer.
#[derive(Debug, PartialEq)]
pub struct Mat<S: Scalar> {
    data: Vec<S>,
    rows: usize,
    cols: usize,
}

impl<S: Scalar> Mat<S> {
    /// The buffer holds one entry for each row and column.
    #[verifier::type_invariant]
    spec fn inv(self) -> bool {
        self.data@.len() == self.rows * self.cols
    }
}


impl<S: Scalar> Mat<S> {
    /// Position of entry `(row, col)` in the buffer.
    fn position(&self, row: usize, col: usize) -> (r: usize)
        requires
            row < self.rows,
            col < self.cols,
        ensures
            r == row * self.cols + col,
            r < self.data@.len(),
    {
        proof {
            use_type_invariant(self);
            assert(self.data.len() == self.data@.len());
            lemma_entry_position(self.rows as nat, self.cols as nat, row as nat, col as nat);
        }
        row * self.cols + col
    }

    /// Iterator over the entries, row by row.
    pub fn iter(&self) -> (r: std::slice::Iter<'_, S>)
        ensures
            into_iter_elts(r) == self.row_entries(),
    {
        self.data.iter()
    }
}

/// `m[(row, col)]` is the entry at row `row` and column `col`.
impl<S: Scalar> core::ops::Index<(usize, usize)> for Mat<S> {
    type Output = S;

    fn index(&self, idx: (usize, usize)) -> (r: &S)
        ensures
            *r == self.row_entries()[idx.0 * self.ncols() + idx.1],
    {
        &self.data[self.position(idx.0, idx.1)]
    }
}

impl<S: Scalar> vstd::std_specs::core::IndexSpecImpl<(usize, usize)> for Mat<S> {
    open spec fn index_req(&self, idx: &(usize, usize)) -> bool {
        idx.0 < self.nrows() && idx.1 < self.ncols()
    }
}

/// Consumes the matrix, yielding its entries row by row.
impl<S: Scalar> IntoIterator for Mat<S> {
    type Item = S;

    type IntoIter = std::vec::IntoIter<S>;

    fn into_iter(self) -> (r: std::vec::IntoIter<S>) {
        self.data.into_iter()
    }
}

impl<S: Scalar> MatrixVectors<S> for Mat<S> {
    type VectorN = Vec<S>;

    type VectorM = Vec<S>;
}

impl<S: Scalar> Clone for Mat<S> {
    fn clone(&self) -> (r: Mat<S>)
        ensures
            r.nrows() == self.nrows(),
            r.ncols() == self.ncols(),
            r.row_entries() == self.row_entries(),
    {
        proof {
            use_type_invariant(self);
        }
        Mat {
            data: <Vec<S> as Vector<S>>::from_slice(self.data.as_slice()),
            rows: self.rows,
            cols: self.cols,
        }
    }
}

impl<S: Scalar> Matrix<S> for Mat<S> {
    closed spec fn nrows(&self) -> nat {
        self.rows as nat
    }

    closed spec fn ncols(&self) -> nat {
        self.cols as nat
    }

    closed spec fn row_entries(&self) -> Seq<S> {
        self.data@
    }

    open spec fn fixed_shape() -> Option<(nat, nat)> {
        None
    }

    open spec fn stored_by_rows() -> bool {
        true
    }

    fn is_statically_sized() -> (r: bool) {
        false
    }

    fn is_dynamically_sized() -> (r: bool) {
        true
    }

    fn is_row_major() -> (r: bool) {
        true
    }

    fn is_column_major() -> (r: bool) {
        false
    }

    fn new_with_shape(rows: usize, cols: usize) -> (r: Mat<S>) {
        Mat { data: <Vec<S> as Vector<S>>::new_with_length(rows * cols), rows, cols }
    }

    fn shape(&self) -> (r: (usize, usize)) {
        proof {
            use_type_invariant(self);
        }
        (self.rows, self.cols)
    }

    fn from_row_slice(rows: usize, cols: usize, slice: &[S]) -> (r: Mat<S>) {
        Mat { data: <Vec<S> as Vector<S>>::from_slice(slice), rows, cols }
    }

    fn from_col_slice(rows: usize, cols: usize, slice: &[S]) -> (r: Mat<S>) {
        Mat { data: rows_from_cols(rows, cols, slice), rows, cols }
    }

    fn mget(&self, row: usize, col: usize) -> (r: S) {
        self.data[self.position(row, col)]
    }

    fn mset(&mut self, row: usize, col: usize, value: S) {
        proof {
            use_type_invariant(&*self);
        }
        let i = self.position(row, col);
        let mut data = <Vec<S> as Vector<S>>::from_slice(self.data.as_slice());
        data.set(i, value);
        *self = Mat { data, rows: self.rows, cols: self.cols };
    }

    fn as_slice(&self) -> (r: Cow<'_, [S]>) {
        Cow::Borrowed(self.data.as_slice())
    }

    fn add(&self, other: &Mat<S>) -> (r: Mat<S>) {
        proof {
            use_type_invariant(self);
            use_type_invariant(other);
        }
        Mat { data: <Vec<S> as Vector<S>>::add(&self.data, &other.data), rows: self.rows, cols: self.cols }
    }

    fn add_assign(&mut self, other: &Mat<S>) {
        proof {
            use_type_invariant(&*self);
            use_type_invariant(other);
        }
        let data = <Vec<S> as Vector<S>>::add(&self.data, &other.data);
        *self = Mat { data, rows: self.rows, cols: self.cols };
    }

    fn sub(&self, other: &Mat<S>) -> (r: Mat<S>) {
        proof {
            use_type_invariant(self);
            use_type_invariant(other);
        }
        Mat { data: <Vec<S> as Vector<S>>::sub(&self.data, &other.data), rows: self.rows, cols: self.cols }
    }

    fn sub_assign(&mut self, other: &Mat<S>) {
        proof {
            use_type_invariant(&*self);
            use_type_invariant(other);
        }
        let data = <Vec<S> as Vector<S>>::sub(&self.data, &other.data);
        *self = Mat { data, rows: self.rows, cols: self.cols };
    }

    fn mul(&self, scalar: S) -> (r: Mat<S>) {
        proof {
            use_type_invariant(self);
        }
        Mat { data: <Vec<S> as Vector<S>>::mul(&self.data, scalar), rows: self.rows, cols: self.cols }
    }

    fn mul_assign(&mut self, scalar: S) {
        proof {
            use_type_invariant(&*self);
        }
        let data = <Vec<S> as Vector<S>>::mul(&self.data, scalar);
        *self = Mat { data, rows: self.rows, cols: self.cols };
    }

    fn div(&self, scalar: S) -> (r: Mat<S>) {
        proof {
            use_type_invariant(self);
        }
        Mat { data: <Vec<S> as Vector<S>>::div(&self.data, scalar), rows: self.rows, cols: self.cols }
    }

    fn div_assign(&mut self, scalar: S) {
        proof {
            use_type_invariant(&*self);
        }
        let data = <Vec<S> as Vector<S>>::div(&self.data, scalar);
        *self = Mat { data, rows: self.rows, cols: self.cols };
    }
}

} // verus!
