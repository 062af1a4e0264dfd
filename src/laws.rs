use std::borrow::Cow;
use vstd::prelude::*;

use crate::matrix::{col_major, cow_view, lemma_col_major_then_row_major, Matrix};
use crate::scalar::{is_difference, is_product, is_sum, is_zero, Scalar};
use crate::vector::Vector;

verus! {

/// For a dynamically-sized vector type, copying a vector's slice view into a new vector gives
/// a vector with the same length and the same elements.
pub proof fn law_slice_round_trip<S: Scalar, V: Vector<S>>(v: &V, s: &[S], copy: V)
    requires
        V::fixed_length() is None,
        call_ensures(V::as_slice, (v,), s),
        call_ensures(V::from_slice, (s,), copy),
    ensures
        call_requires(V::from_slice, (s,)),
        copy.elems().len() == v.elems().len(),
        copy.elems() == v.elems(),
{
}

/// A statically-sized vector type accepts exactly its own length: the precondition of
/// `new_with_length(len)` on a fixed-length array `[S; N]` holds if and only if `len == N`.
pub proof fn law_fixed_length_only<S: Scalar, const N: usize>(len: usize)
    ensures
        (<[S; N] as Vector<S>>::fixed_length() is None || <[S; N] as Vector<S>>::fixed_length()
            == Some(len as nat)) <==> len == N,
        len == N ==> call_requires(<[S; N] as Vector<S>>::new_with_length, (len,)),
{
    assert(<[S; N] as Vector<S>>::fixed_length() == Some(N as nat));
}

/// The empty vector: every dynamically-sized vector type accepts length zero, and the
/// precondition of `new_with_length(0)` on a fixed-length array `[S; N]` holds only when
/// `N == 0`.
pub proof fn law_empty_length<S: Scalar, V: Vector<S>, const N: usize>()
    requires
        V::fixed_length() is None,
    ensures
        call_requires(V::new_with_length, (0usize,)),
        (<[S; N] as Vector<S>>::fixed_length() is None || <[S; N] as Vector<S>>::fixed_length()
            == Some(0nat)) <==> N == 0,
{
    assert(<[S; N] as Vector<S>>::fixed_length() == Some(N as nat));
}

/// `is_empty` holds exactly when `len` is zero.
pub proof fn law_is_empty_agrees_with_len<S: Scalar, V: Vector<S>>(v: &V, empty: bool, len: usize)
    requires
        call_ensures(V::is_empty, (v,), empty),
        call_ensures(V::len, (v,), len),
    ensures
        empty == (len == 0),
{
}

/// Building a matrix from a buffer read row by row, or from its column-by-column reordering read
/// column by column, gives the same matrix; reading that matrix back row by row gives the
/// buffer, and column by column its reordering.
pub proof fn law_row_and_col_slices_agree<S: Scalar, M: Matrix<S>>(
    rows: usize,
    cols: usize,
    by_rows: &[S],
    by_cols: &[S],
    a: M,
    b: M,
    row_view: Cow<'_, [S]>,
    col_view: Cow<'_, [S]>,
)
    requires
        by_rows@.len() == rows * cols,
        by_cols@ == col_major(rows as nat, cols as nat, by_rows@),
        call_ensures(M::from_row_slice, (rows, cols, by_rows), a),
        call_ensures(M::from_col_slice, (rows, cols, by_cols), b),
        call_ensures(M::as_row_slice, (&a,), row_view),
        call_ensures(M::as_col_slice, (&a,), col_view),
    ensures
        a.nrows() == b.nrows(),
        a.ncols() == b.ncols(),
        a.row_entries() == b.row_entries(),
        cow_view(&row_view) == by_rows@,
        cow_view(&col_view) == by_cols@,
{
    lemma_col_major_then_row_major(rows as nat, cols as nat, by_rows@);
}

/// Scalar identities, for `i64` scalars (exact integer arithmetic, where nothing overflows):
/// adding `b` and then subtracting it gives `a` back, multiplying by one keeps `a`, and zero plus
/// `a` is `a`.
pub proof fn law_scalar_identities_i64(a: i64, b: i64, sum: i64, back: i64, one: i64, times_one: i64, zero: i64, zero_plus: i64)
    requires
        i64::MIN <= a + b <= i64::MAX,
        is_sum(a, b, sum),
        is_difference(sum, b, back),
        one == 1,
        is_product(a, one, times_one),
        is_zero(zero),
        is_sum(zero, a, zero_plus),
    ensures
        back == a,
        times_one == a,
        zero_plus == a,
{
}

/// For vectors of `i64` scalars, elementwise addition is commutative: `a.add(&b)` and
/// `b.add(&a)` hold the same elements.
pub proof fn law_add_commutes_i64<V: Vector<i64>>(a: &V, b: &V, ab: V, ba: V)
    requires
        a.elems().len() == b.elems().len(),
        call_ensures(V::add, (a, b), ab),
        call_ensures(V::add, (b, a), ba),
    ensures
        ab.elems() == ba.elems(),
{
    assert(ab.elems() =~= ba.elems()) by {
        assert forall|i: int| 0 <= i < ab.elems().len() implies ab.elems()[i] == ba.elems()[i] by {
            assert(is_sum(a.elems()[i], b.elems()[i], ab.elems()[i]));
            assert(is_sum(b.elems()[i], a.elems()[i], ba.elems()[i]));
        }
    }
}

/// For vectors of `i64` scalars whose elementwise sums do not overflow, adding `b` and then
/// subtracting it gives `a` back: `a.add(&b).sub(&b)` holds the elements of `a`.
pub proof fn law_add_then_sub_i64<V: Vector<i64>>(a: &V, b: &V, sum: &V, back: V)
    requires
        a.elems().len() == b.elems().len(),
        forall|i: int| 0 <= i < a.elems().len() ==> i64::MIN <= #[trigger] a.elems()[i] + b.elems()[i] <= i64::MAX,
        call_ensures(V::add, (a, b), *sum),
        call_ensures(V::sub, (sum, b), back),
    ensures
        back.elems() == a.elems(),
{
    assert(back.elems() =~= a.elems()) by {
        assert forall|i: int| 0 <= i < a.elems().len() implies back.elems()[i] == a.elems()[i] by {
            assert(is_sum(a.elems()[i], b.elems()[i], sum.elems()[i]));
            assert(is_difference(sum.elems()[i], b.elems()[i], back.elems()[i]));
        }
    }
}

} // verus!
