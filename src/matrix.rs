use std::borrow::Cow;
use vstd::arithmetic::div_mod::{lemma_fundamental_div_mod, lemma_fundamental_div_mod_converse};
use vstd::prelude::*;

use crate::elementwise::{
    difference_ok, divide_ok, is_divided, is_elementwise_difference, is_elementwise_sum,
    is_scaled, is_zeros, scale_ok, sum_ok,
};
use crate::scalar::Scalar;
use crate::vector::Vector;

verus! {

/// A matrix type accepts the shape `(rows, cols)`: any shape for a dynamically-sized type, its
/// fixed shape for a statically-sized one.
pub open spec fn accepts_shape<S: Scalar, M: Matrix<S>>(rows: nat, cols: nat) -> bool {
    M::fixed_shape() is None || M::fixed_shape() == Some((rows, cols))
}

/// The entries of a `rows x cols` matrix column by column, given its entries row by row.
pub open spec fn col_major<S>(rows: nat, cols: nat, by_rows: Seq<S>) -> Seq<S> {
    Seq::new(rows * cols, |k: int| by_rows[(k % rows as int) * cols + k / rows as int])
}

/// The entries of a `rows x cols` matrix row by row, given its entries column by column.
pub open spec fn row_major<S>(rows: nat, cols: nat, by_cols: Seq<S>) -> Seq<S> {
    Seq::new(rows * cols, |k: int| by_cols[(k % cols as int) * rows + k / cols as int])
}

/// Where entry `(i, j)` of a `rows x cols` matrix stands, row by row and column by column.
pub proof fn lemma_entry_position(rows: nat, cols: nat, i: nat, j: nat)
    requires
        i < rows,
        j < cols,
    ensures
        i * cols + j < rows * cols,
        j * rows + i < rows * cols,
        (i * cols + j) as int / cols as int == i,
        (i * cols + j) as int % cols as int == j,
        (j * rows + i) as int / rows as int == j,
        (j * rows + i) as int % rows as int == i,
{
    lemma_fundamental_div_mod_converse((i * cols + j) as int, cols as int, i as int, j as int);
    lemma_fundamental_div_mod_converse((j * rows + i) as int, rows as int, j as int, i as int);
    assert(i * cols + j < rows * cols) by (nonlinear_arith)
        requires
            i < rows,
            j < cols,
    ;
    assert(j * rows + i < rows * cols) by (nonlinear_arith)
        requires
            i < rows,
            j < cols,
    ;
}

/// Reading a row-major buffer column by column and back gives the buffer again.
pub proof fn lemma_col_major_then_row_major<S>(rows: nat, cols: nat, s: Seq<S>)
    requires
        s.len() == rows * cols,
    ensures
        row_major(rows, cols, col_major(rows, cols, s)) == s,
{
    let c = col_major(rows, cols, s);
    let r = row_major(rows, cols, c);
    assert forall|k: int| 0 <= k < s.len() implies r[k] == s[k] by {
        let i = k / cols as int;
        let j = k % cols as int;
        assert(cols > 0) by (nonlinear_arith)
            requires
                0 <= k < rows * cols,
        ;
        lemma_fundamental_div_mod(k, cols as int);
        assert(0 <= i < rows && 0 <= j < cols) by (nonlinear_arith)
            requires
                0 <= k < rows * cols,
                i == k / cols as int,
                j == k % cols as int,
                k == cols * i + j,
        ;
        lemma_entry_position(rows, cols, i as nat, j as nat);
        assert(k == i * cols + j) by (nonlinear_arith)
            requires
                k == cols * i + j,
        ;
    }
    assert(r =~= s);
}

/// What a slice view holds, borrowed or owned.
pub open spec fn cow_view<S: Clone>(c: &Cow<'_, [S]>) -> Seq<S> {
    match c {
        Cow::Borrowed(b) => b@,
        Cow::Owned(o) => o@,
    }
}

/// A two-dimensional container of scalars.
///
/// Its value is its shape `(nrows(), ncols())` and its entries row by row, `row_entries()`:
/// entry `(i, j)` stands at `i * ncols() + j`, whatever order the type stores them in. A matrix is
/// duplicated only through `clone`; entries are read by position through `mget` or
/// `m[(row, col)]`, and written through `mset`.
pub trait Matrix<S: Scalar>: Sized + Clone + core::ops::Index<(usize, usize), Output = S> {
    /// Number of rows.
    spec fn nrows(&self) -> nat;

    /// Number of columns.
    spec fn ncols(&self) -> nat;

    /// The entries row by row.
    spec fn row_entries(&self) -> Seq<S>;

    /// The shape that the type fixes, if it is statically sized.
    spec fn fixed_shape() -> Option<(nat, nat)>;

    /// Whether the type stores its entries row by row (else column by column).
    spec fn stored_by_rows() -> bool;

    /// Whether the type is statically sized.
    fn is_statically_sized() -> (r: bool)
        ensures
            r == Self::fixed_shape() is Some,
    ;

    /// Whether the type is dynamically sized.
    fn is_dynamically_sized() -> (r: bool)
        ensures
            r == Self::fixed_shape() is None,
    ;

    /// Whether the type stores its entries row by row.
    fn is_row_major() -> (r: bool)
        ensures
            r == Self::stored_by_rows(),
    ;

    /// Whether the type stores its entries column by column.
    fn is_column_major() -> (r: bool)
        ensures
            r == !Self::stored_by_rows(),
    ;

    /// A `rows x cols` matrix whose entries are all zero.
    fn new_with_shape(rows: usize, cols: usize) -> (r: Self)
        requires
            shape_fits(rows as int, cols as int),
            Self::fixed_shape() is None || Self::fixed_shape() == Some((rows as nat, cols as nat)),
        ensures
            r.nrows() == rows,
            r.ncols() == cols,
            is_zeros(r.row_entries(), (rows * cols) as nat),
    ;

    /// The shape `(rows, cols)`. A matrix has `rows * cols` entries, and a matrix of a
    /// statically-sized type has the type's shape.
    fn shape(&self) -> (r: (usize, usize))
        ensures
            r.0 == self.nrows(),
            r.1 == self.ncols(),
            self.row_entries().len() == self.nrows() * self.ncols(),
            Self::fixed_shape() is None || Self::fixed_shape() == Some((self.nrows(), self.ncols())),
    ;

    /// A `rows x cols` matrix whose entries are `slice` read row by row.
    fn from_row_slice(rows: usize, cols: usize, slice: &[S]) -> (r: Self)
        requires
            slice@.len() == rows * cols,
            shape_fits(rows as int, cols as int),
            Self::fixed_shape() is None || Self::fixed_shape() == Some((rows as nat, cols as nat)),
        ensures
            r.nrows() == rows,
            r.ncols() == cols,
            r.row_entries() == slice@,
    ;

    /// A `rows x cols` matrix whose entries are `slice` read column by column.
    fn from_col_slice(rows: usize, cols: usize, slice: &[S]) -> (r: Self)
        requires
            slice@.len() == rows * cols,
            shape_fits(rows as int, cols as int),
            Self::fixed_shape() is None || Self::fixed_shape() == Some((rows as nat, cols as nat)),
        ensures
            r.nrows() == rows,
            r.ncols() == cols,
            r.row_entries() == row_major(rows as nat, cols as nat, slice@),
    ;

    /// The entry at row `row` and column `col`.
    fn mget(&self, row: usize, col: usize) -> (r: S)
        requires
            row < self.nrows(),
            col < self.ncols(),
        ensures
            r == self.row_entries()[row * self.ncols() + col],
    ;

    /// Sets the entry at row `row` and column `col` to `value`.
    fn mset(&mut self, row: usize, col: usize, value: S)
        requires
            row < old(self).nrows(),
            col < old(self).ncols(),
        ensures
            final(self).nrows() == old(self).nrows(),
            final(self).ncols() == old(self).ncols(),
            final(self).row_entries() == old(self).row_entries().update(
                row * old(self).ncols() + col,
                value,
            ),
    ;

    /// The entries in the order the type stores them: borrowed where they lie contiguously in
    /// that order, else an owned copy.
    fn as_slice(&self) -> (r: Cow<'_, [S]>)
        ensures
            cow_view(&r) == if Self::stored_by_rows() {
                self.row_entries()
            } else {
                col_major(self.nrows(), self.ncols(), self.row_entries())
            },
    ;

    /// Elementwise sum `self + other`.
    fn add(&self, other: &Self) -> (r: Self)
        requires
            self.nrows() == other.nrows(),
            self.ncols() == other.ncols(),
            sum_ok(self.row_entries(), other.row_entries()),
        ensures
            r.nrows() == self.nrows(),
            r.ncols() == self.ncols(),
            is_elementwise_sum(self.row_entries(), other.row_entries(), r.row_entries()),
    ;

    /// In-place elementwise sum `self += other`.
    fn add_assign(&mut self, other: &Self)
        requires
            old(self).nrows() == other.nrows(),
            old(self).ncols() == other.ncols(),
            sum_ok(old(self).row_entries(), other.row_entries()),
        ensures
            final(self).nrows() == old(self).nrows(),
            final(self).ncols() == old(self).ncols(),
            is_elementwise_sum(old(self).row_entries(), other.row_entries(), final(self).row_entries()),
    ;

    /// Elementwise difference `self - other`.
    fn sub(&self, other: &Self) -> (r: Self)
        requires
            self.nrows() == other.nrows(),
            self.ncols() == other.ncols(),
            difference_ok(self.row_entries(), other.row_entries()),
        ensures
            r.nrows() == self.nrows(),
            r.ncols() == self.ncols(),
            is_elementwise_difference(self.row_entries(), other.row_entries(), r.row_entries()),
    ;

    /// In-place elementwise difference `self -= other`.
    fn sub_assign(&mut self, other: &Self)
        requires
            old(self).nrows() == other.nrows(),
            old(self).ncols() == other.ncols(),
            difference_ok(old(self).row_entries(), other.row_entries()),
        ensures
            final(self).nrows() == old(self).nrows(),
            final(self).ncols() == old(self).ncols(),
            is_elementwise_difference(
                old(self).row_entries(),
                other.row_entries(),
                final(self).row_entries(),
            ),
    ;

    /// Each entry multiplied by `scalar`.
    fn mul(&self, scalar: S) -> (r: Self)
        requires
            scale_ok(self.row_entries(), scalar),
        ensures
            r.nrows() == self.nrows(),
            r.ncols() == self.ncols(),
            is_scaled(self.row_entries(), scalar, r.row_entries()),
    ;

    /// Multiplies each entry by `scalar` in place.
    fn mul_assign(&mut self, scalar: S)
        requires
            scale_ok(old(self).row_entries(), scalar),
        ensures
            final(self).nrows() == old(self).nrows(),
            final(self).ncols() == old(self).ncols(),
            is_scaled(old(self).row_entries(), scalar, final(self).row_entries()),
    ;

    /// Each entry divided by `scalar`.
    fn div(&self, scalar: S) -> (r: Self)
        requires
            divide_ok(self.row_entries(), scalar),
        ensures
            r.nrows() == self.nrows(),
            r.ncols() == self.ncols(),
            is_divided(self.row_entries(), scalar, r.row_entries()),
    ;

    /// Divides each entry by `scalar` in place.
    fn div_assign(&mut self, scalar: S)
        requires
            divide_ok(old(self).row_entries(), scalar),
        ensures
            final(self).nrows() == old(self).nrows(),
            final(self).ncols() == old(self).ncols(),
            is_divided(old(self).row_entries(), scalar, final(self).row_entries()),
    ;

    /// A copy of the entries of the matrix, row by row, read one entry at a time.
    fn entries_by_rows(&self) -> (r: Vec<S>)
        ensures
            r@ == self.row_entries(),
    {
        let (rows, cols) = self.shape();
        let mut v: Vec<S> = Vec::new();
        let mut row: usize = 0;
        while row < rows
            invariant
                rows == self.nrows(),
                cols == self.ncols(),
                self.row_entries().len() == rows * cols,
                row <= rows,
                v@.len() == row * cols,
                forall|k: int| 0 <= k < v@.len() ==> v@[k] == #[trigger] self.row_entries()[k],
            decreases rows - row,
        {
            let mut col: usize = 0;
            while col < cols
                invariant
                    rows == self.nrows(),
                    cols == self.ncols(),
                    self.row_entries().len() == rows * cols,
                    row < rows,
                    col <= cols,
                    v@.len() == row * cols + col,
                    forall|k: int|
                        0 <= k < v@.len() ==> v@[k] == #[trigger] self.row_entries()[k],
                decreases cols - col,
            {
                v.push(self.mget(row, col));
                col += 1;
            }
            proof {
                assert((row + 1) * cols == row * cols + cols) by (nonlinear_arith);
            }
            row += 1;
        }
        proof {
            assert(v@ =~= self.row_entries());
        }
        v
    }

    /// A copy of the entries of the matrix, column by column, read one entry at a time.
    fn entries_by_cols(&self) -> (r: Vec<S>)
        ensures
            r@ == col_major(self.nrows(), self.ncols(), self.row_entries()),
    {
        let (rows, cols) = self.shape();
        let ghost by_cols = col_major(self.nrows(), self.ncols(), self.row_entries());
        let mut v: Vec<S> = Vec::new();
        let mut col: usize = 0;
        while col < cols
            invariant
                rows == self.nrows(),
                cols == self.ncols(),
                self.row_entries().len() == rows * cols,
                by_cols == col_major(self.nrows(), self.ncols(), self.row_entries()),
                col <= cols,
                v@.len() == col * rows,
                forall|k: int| 0 <= k < v@.len() ==> v@[k] == #[trigger] by_cols[k],
            decreases cols - col,
        {
            let mut row: usize = 0;
            while row < rows
                invariant
                    rows == self.nrows(),
                    cols == self.ncols(),
                    self.row_entries().len() == rows * cols,
                    by_cols == col_major(self.nrows(), self.ncols(), self.row_entries()),
                    col < cols,
                    row <= rows,
                    v@.len() == col * rows + row,
                    forall|k: int| 0 <= k < v@.len() ==> v@[k] == #[trigger] by_cols[k],
                decreases rows - row,
            {
                proof {
                    lemma_entry_position(rows as nat, cols as nat, row as nat, col as nat);
                    assert(by_cols[col * rows + row] == self.row_entries()[row * cols + col]);
                }
                v.push(self.mget(row, col));
                row += 1;
            }
            proof {
                assert((col + 1) * rows == col * rows + rows) by (nonlinear_arith);
            }
            col += 1;
        }
        proof {
            assert(cols * rows == rows * cols) by (nonlinear_arith);
            assert(v@ =~= by_cols);
        }
        v
    }

    /// The entries row by row: borrowed from `as_slice` for a type stored row by row, else an
    /// owned copy.
    fn as_row_slice(&self) -> (r: Cow<'_, [S]>)
        ensures
            cow_view(&r) == self.row_entries(),
    {
        if Self::is_row_major() {
            self.as_slice()
        } else {
            Cow::Owned(self.entries_by_rows())
        }
    }

    /// The entries column by column: borrowed from `as_slice` for a type stored column by
    /// column, else an owned copy.
    fn as_col_slice(&self) -> (r: Cow<'_, [S]>)
        ensures
            cow_view(&r) == col_major(self.nrows(), self.ncols(), self.row_entries()),
    {
        if Self::is_column_major() {
            self.as_slice()
        } else {
            Cow::Owned(self.entries_by_cols())
        }
    }

    /// States that `self` and `other` have the same shape. Binary operations require it; a
    /// caller establishes it before the call, so at run time there is nothing left to do.
    fn assert_same_shape(&self, other: &Self)
        requires
            self.nrows() == other.nrows(),
            self.ncols() == other.ncols(),
    {
    }
}

/// The vector types that fit an `M x N` matrix type.
///
/// This stands apart from `Matrix` because `Vector` names its matrix types: with both directions
/// in one pair of traits, each trait's declaration would depend on the other's.
pub trait MatrixVectors<S: Scalar>: Matrix<S> {
    /// Vector type of length `N` (the number of columns).
    type VectorN: Vector<S>;

    /// Vector type of length `M` (the number of rows).
    type VectorM: Vector<S>;

    /// A zero vector with one element for each column.
    fn new_vector_n(&self) -> (r: Self::VectorN)
        requires
            Self::VectorN::fixed_length() is None || Self::VectorN::fixed_length() == Some(
                self.ncols(),
            ),
        ensures
            is_zeros(r.elems(), self.ncols()),
    {
        let (_, n) = self.shape();
        Self::VectorN::new_with_length(n)
    }

    /// A zero vector with one element for each row.
    fn new_vector_m(&self) -> (r: Self::VectorM)
        requires
            Self::VectorM::fixed_length() is None || Self::VectorM::fixed_length() == Some(
                self.nrows(),
            ),
        ensures
            is_zeros(r.elems(), self.nrows()),
    {
        let (m, _) = self.shape();
        Self::VectorM::new_with_length(m)
    }
}

/// The entries of a `rows x cols` matrix row by row, copied from `slice`, which holds them
/// column by column.
pub fn rows_from_cols<S: Scalar>(rows: usize, cols: usize, slice: &[S]) -> (r: Vec<S>)
    requires
        slice@.len() == rows * cols,
    ensures
        r@ == row_major(rows as nat, cols as nat, slice@),
{
    let ghost by_rows = row_major(rows as nat, cols as nat, slice@);
    let n = slice.len();
    let mut data: Vec<S> = Vec::with_capacity(n);
    let mut row: usize = 0;
    while row < rows
        invariant
            n == slice@.len(),
            slice@.len() == rows * cols,
            by_rows == row_major(rows as nat, cols as nat, slice@),
            row <= rows,
            data@.len() == row * cols,
            forall|k: int| 0 <= k < data@.len() ==> data@[k] == #[trigger] by_rows[k],
        decreases rows - row,
    {
        let mut col: usize = 0;
        while col < cols
            invariant
                n == slice@.len(),
                slice@.len() == rows * cols,
                by_rows == row_major(rows as nat, cols as nat, slice@),
                row < rows,
                col <= cols,
                data@.len() == row * cols + col,
                forall|k: int| 0 <= k < data@.len() ==> data@[k] == #[trigger] by_rows[k],
            decreases cols - col,
        {
            proof {
                lemma_entry_position(rows as nat, cols as nat, row as nat, col as nat);
                assert(by_rows[row * cols + col] == slice@[col * rows + row]);
            }
            data.push(slice[row + col * rows]);
            col += 1;
        }
        proof {
            assert((row + 1) * cols == row * cols + cols) by (nonlinear_arith);
        }
        row += 1;
    }
    proof {
        assert(data@ =~= by_rows);
    }
    data
}

/// The entries of a `rows x cols` matrix column by column, copied from `slice`, which holds them
/// row by row.
pub fn cols_from_rows<S: Scalar>(rows: usize, cols: usize, slice: &[S]) -> (r: Vec<S>)
    requires
        slice@.len() == rows * cols,
    ensures
        r@ == col_major(rows as nat, cols as nat, slice@),
{
    let ghost by_cols = col_major(rows as nat, cols as nat, slice@);
    let n = slice.len();
    let mut data: Vec<S> = Vec::with_capacity(n);
    let mut col: usize = 0;
    while col < cols
        invariant
            n == slice@.len(),
            slice@.len() == rows * cols,
            by_cols == col_major(rows as nat, cols as nat, slice@),
            col <= cols,
            data@.len() == col * rows,
            forall|k: int| 0 <= k < data@.len() ==> data@[k] == #[trigger] by_cols[k],
        decreases cols - col,
    {
        let mut row: usize = 0;
        while row < rows
            invariant
                n == slice@.len(),
                slice@.len() == rows * cols,
                by_cols == col_major(rows as nat, cols as nat, slice@),
                col < cols,
                row <= rows,
                data@.len() == col * rows + row,
                forall|k: int| 0 <= k < data@.len() ==> data@[k] == #[trigger] by_cols[k],
            decreases rows - row,
        {
            proof {
                lemma_entry_position(rows as nat, cols as nat, row as nat, col as nat);
                assert(by_cols[col * rows + row] == slice@[row * cols + col]);
            }
            data.push(slice[row * cols + col]);
            row += 1;
        }
        proof {
            assert((col + 1) * rows == col * rows + rows) by (nonlinear_arith);
        }
        col += 1;
    }
    proof {
        assert(cols * rows == rows * cols) by (nonlinear_arith);
        assert(data@ =~= by_cols);
    }
    data
}

/// A matrix of `rows x cols` entries can be allocated: each dimension and the number of entries
/// fit in `isize`.
pub open spec fn shape_fits(rows: int, cols: int) -> bool {
    rows <= isize::MAX && cols <= isize::MAX && rows * cols <= isize::MAX
}

} // verus!
