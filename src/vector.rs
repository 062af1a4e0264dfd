use vstd::prelude::*;

use crate::elementwise::{
    difference_ok, divide_ok, dot_ok, is_divided, is_dot, is_elementwise_difference,
    is_elementwise_sum, is_scaled, is_zeros, scale_ok, sum_ok,
};
use crate::matrix::{accepts_shape, shape_fits, Matrix};
use crate::scalar::Scalar;

verus! {

/// The second dimension of a matrix made to fit a vector: the compile-time `fixed` for a
/// statically-sized vector type, else the run-time argument `m`.
pub open spec fn extra_dimension(statically_sized: bool, fixed: usize, m: Option<usize>) -> usize {
    if statically_sized {
        fixed
    } else {
        m.unwrap()
    }
}

/// A one-dimensional container of scalars.
///
/// Its value is the sequence `elems()` of its elements in index order. A statically-sized type
/// has a length fixed by the type (`fixed_length()` is `Some`), a dynamically-sized one a length
/// chosen at run time.
///
/// Each vector type names the matrix types that fit it: with a vector of length `N`, an `N x N`
/// matrix (`MatrixNxN`), an `M x N` matrix that the vector multiplies from the right
/// (`MatrixMxN`, `DMatrixMxN`), and an `N x M` matrix that it multiplies from the left
/// (`MatrixNxM`, `DMatrixNxM`).
///
/// A vector is duplicated only through `clone`. Elements are read by position through `vget` or
/// `v[i]`, and written through `vset`.
pub trait Vector<S: Scalar>: Sized + Clone + core::ops::Index<usize, Output = S> {
    /// `N x N` matrix type that fits a vector of length `N`.
    type MatrixNxN: Matrix<S>;

    /// `M x N` matrix type that fits a vector of length `N`; for a statically-sized vector `M`
    /// is a compile-time parameter.
    type MatrixMxN: Matrix<S>;

    /// Dynamically-sized `M x N` matrix type that fits a vector of length `N`.
    type DMatrixMxN: Matrix<S>;

    /// `N x M` matrix type that fits a vector of length `N`; for a statically-sized vector `M`
    /// is a compile-time parameter.
    type MatrixNxM: Matrix<S>;

    /// Dynamically-sized `N x M` matrix type that fits a vector of length `N`.
    type DMatrixNxM: Matrix<S>;

    /// The elements in index order.
    spec fn elems(&self) -> Seq<S>;

    /// The length that the type fixes, if it is statically sized.
    spec fn fixed_length() -> Option<nat>;

    /// Whether the type is statically sized.
    fn is_statically_sized() -> (r: bool)
        ensures
            r == Self::fixed_length() is Some,
    ;

    /// Whether the type is dynamically sized.
    fn is_dynamically_sized() -> (r: bool)
        ensures
            r == Self::fixed_length() is None,
    ;

    /// A vector of length `len` whose elements are all zero.
    fn new_with_length(len: usize) -> (r: Self)
        requires
            Self::fixed_length() is None || Self::fixed_length() == Some(len as nat),
        ensures
            is_zeros(r.elems(), len as nat),
    ;

    /// The length. A vector of a statically-sized type has the type's length.
    fn len(&self) -> (r: usize)
        ensures
            r == self.elems().len(),
            Self::fixed_length() is None || Self::fixed_length() == Some(self.elems().len()),
    ;

    /// Whether the length is zero.
    fn is_empty(&self) -> (r: bool)
        ensures
            r == (self.elems().len() == 0),
    ;

    /// A vector holding a copy of `slice`.
    fn from_slice(slice: &[S]) -> (r: Self)
        requires
            Self::fixed_length() is None || Self::fixed_length() == Some(slice@.len()),
        ensures
            r.elems() == slice@,
    ;

    /// The elements as a contiguous slice.
    fn as_slice(&self) -> (r: &[S])
        ensures
            r@ == self.elems(),
    ;

    /// The element at `index`.
    fn vget(&self, index: usize) -> (r: S)
        requires
            index < self.elems().len(),
        ensures
            r == self.elems()[index as int],
    ;

    /// Sets the element at `index` to `value`.
    fn vset(&mut self, index: usize, value: S)
        requires
            index < old(self).elems().len(),
        ensures
            final(self).elems() == old(self).elems().update(index as int, value),
    ;

    /// Elementwise sum `self + other`.
    fn add(&self, other: &Self) -> (r: Self)
        requires
            self.elems().len() == other.elems().len(),
            sum_ok(self.elems(), other.elems()),
        ensures
            is_elementwise_sum(self.elems(), other.elems(), r.elems()),
    ;

    /// In-place elementwise sum `self += other`.
    fn add_assign(&mut self, other: &Self)
        requires
            old(self).elems().len() == other.elems().len(),
            sum_ok(old(self).elems(), other.elems()),
        ensures
            is_elementwise_sum(old(self).elems(), other.elems(), final(self).elems()),
    ;

    /// Elementwise difference `self - other`.
    fn sub(&self, other: &Self) -> (r: Self)
        requires
            self.elems().len() == other.elems().len(),
            difference_ok(self.elems(), other.elems()),
        ensures
            is_elementwise_difference(self.elems(), other.elems(), r.elems()),
    ;

    /// In-place elementwise difference `self -= other`.
    fn sub_assign(&mut self, other: &Self)
        requires
            old(self).elems().len() == other.elems().len(),
            difference_ok(old(self).elems(), other.elems()),
        ensures
            is_elementwise_difference(old(self).elems(), other.elems(), final(self).elems()),
    ;

    /// Each element multiplied by `scalar`.
    fn mul(&self, scalar: S) -> (r: Self)
        requires
            scale_ok(self.elems(), scalar),
        ensures
            is_scaled(self.elems(), scalar, r.elems()),
    ;

    /// Multiplies each element by `scalar` in place.
    fn mul_assign(&mut self, scalar: S)
        requires
            scale_ok(old(self).elems(), scalar),
        ensures
            is_scaled(old(self).elems(), scalar, final(self).elems()),
    ;

    /// Each element divided by `scalar`.
    fn div(&self, scalar: S) -> (r: Self)
        requires
            divide_ok(self.elems(), scalar),
        ensures
            is_divided(self.elems(), scalar, r.elems()),
    ;

    /// Divides each element by `scalar` in place.
    fn div_assign(&mut self, scalar: S)
        requires
            divide_ok(old(self).elems(), scalar),
        ensures
            is_divided(old(self).elems(), scalar, final(self).elems()),
    ;

    /// Dot product of `self` and `other`.
    fn dot(&self, other: &Self) -> (r: S)
        requires
            self.elems().len() == other.elems().len(),
            dot_ok(self.elems(), other.elems()),
        ensures
            is_dot(self.elems(), other.elems(), r),
    ;
    /// States that `self` and `other` have the same length. Binary operations require it; a
    /// caller establishes it before the call, so at run time there is nothing left to do.
    fn assert_same_length(&self, other: &Self)
        requires
            self.elems().len() == other.elems().len(),
    {
    }

    /// A zero `N x N` matrix, `N` being the length of `self`.
    fn new_matrix_n_by_n(&self) -> (r: Self::MatrixNxN)
        requires
            shape_fits(self.elems().len() as int, self.elems().len() as int),
            accepts_shape::<S, Self::MatrixNxN>(self.elems().len(), self.elems().len()),
        ensures
            r.nrows() == self.elems().len(),
            r.ncols() == self.elems().len(),
            is_zeros(r.row_entries(), self.elems().len() * self.elems().len()),
    {
        let n = self.len();
        Self::MatrixNxN::new_with_shape(n, n)
    }

    /// A zero `M x N` matrix, `N` being the length of `self`. A statically-sized vector takes
    /// `M` from the type parameter, a dynamically-sized one from `m`.
    fn new_matrix_m_by_n<const M: usize>(&self, m: Option<usize>) -> (r: Self::MatrixMxN)
        requires
            Self::fixed_length() is None ==> m is Some,
            shape_fits(extra_dimension(Self::fixed_length() is Some, M, m) as int, self.elems().len() as int),
            accepts_shape::<S, Self::MatrixMxN>(
                extra_dimension(Self::fixed_length() is Some, M, m) as nat,
                self.elems().len(),
            ),
        ensures
            r.nrows() == extra_dimension(Self::fixed_length() is Some, M, m),
            r.ncols() == self.elems().len(),
            is_zeros(r.row_entries(), (extra_dimension(Self::fixed_length() is Some, M, m) * self.elems().len()) as nat),
    {
        let n = self.len();
        let rows = if Self::is_statically_sized() {
            M
        } else {
            m.unwrap()
        };
        Self::MatrixMxN::new_with_shape(rows, n)
    }

    /// A zero dynamically-sized `m x N` matrix, `N` being the length of `self`.
    fn new_dmatrix_m_by_n(&self, m: usize) -> (r: Self::DMatrixMxN)
        requires
            shape_fits(m as int, self.elems().len() as int),
            accepts_shape::<S, Self::DMatrixMxN>(m as nat, self.elems().len()),
        ensures
            r.nrows() == m,
            r.ncols() == self.elems().len(),
            is_zeros(r.row_entries(), (m * self.elems().len()) as nat),
    {
        Self::DMatrixMxN::new_with_shape(m, self.len())
    }

    /// A zero `N x M` matrix, `N` being the length of `self`. A statically-sized vector takes
    /// `M` from the type parameter, a dynamically-sized one from `m`.
    fn new_matrix_n_by_m<const M: usize>(&self, m: Option<usize>) -> (r: Self::MatrixNxM)
        requires
            Self::fixed_length() is None ==> m is Some,
            shape_fits(self.elems().len() as int, extra_dimension(Self::fixed_length() is Some, M, m) as int),
            accepts_shape::<S, Self::MatrixNxM>(
                self.elems().len(),
                extra_dimension(Self::fixed_length() is Some, M, m) as nat,
            ),
        ensures
            r.nrows() == self.elems().len(),
            r.ncols() == extra_dimension(Self::fixed_length() is Some, M, m),
            is_zeros(r.row_entries(), (self.elems().len() * extra_dimension(Self::fixed_length() is Some, M, m)) as nat),
    {
        let n = self.len();
        let cols = if Self::is_statically_sized() {
            M
        } else {
            m.unwrap()
        };
        Self::MatrixNxM::new_with_shape(n, cols)
    }

    /// A zero dynamically-sized `N x m` matrix, `N` being the length of `self`.
    fn new_dmatrix_n_by_m(&self, m: usize) -> (r: Self::DMatrixNxM)
        requires
            shape_fits(self.elems().len() as int, m as int),
            accepts_shape::<S, Self::DMatrixNxM>(self.elems().len(), m as nat),
        ensures
            r.nrows() == self.elems().len(),
            r.ncols() == m,
            is_zeros(r.row_entries(), (self.elems().len() * m) as nat),
    {
        Self::DMatrixNxM::new_with_shape(self.len(), m)
    }
}

} // verus!
