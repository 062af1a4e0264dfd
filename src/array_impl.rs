use vstd::prelude::*;

use crate::elementwise::{
    difference_ok, divide_ok, dot_ok, is_dot_trace, lemma_dot_trace_step, scale_ok, sum_ok,
};
use crate::mat::Mat;
use crate::nalgebra_impl::NaSMat;
use crate::scalar::{
    add_ok, div_ok, is_difference, is_product, is_quotient, is_sum, mul_ok, sub_ok, Scalar,
};
use crate::vector::Vector;

verus! {

/// A fixed-length array is a statically-sized vector: its length is `N`.
impl<S: Scalar, const N: usize> Vector<S> for [S; N] {
    type MatrixNxN = NaSMat<S, N, N>;

    type MatrixMxN = Mat<S>;

    type DMatrixMxN = Mat<S>;

    type MatrixNxM = Mat<S>;

    type DMatrixNxM = Mat<S>;

    open spec fn elems(&self) -> Seq<S> {
        self@
    }

    open spec fn fixed_length() -> Option<nat> {
        Some(N as nat)
    }

    fn is_statically_sized() -> (r: bool) {
        true
    }

    fn is_dynamically_sized() -> (r: bool) {
        false
    }

    fn new_with_length(len: usize) -> (r: [S; N]) {
        let zero = S::default();
        let r = [zero; N];
        proof {
            assert forall|i: int| 0 <= i < N implies #[trigger] crate::scalar::is_zero(r@[i]) by {
                assert(r@[i] == zero);
            }
        }
        r
    }

    fn len(&self) -> (r: usize) {
        proof {
            assert(self@.len() == N);
            assert(<[S; N] as Vector<S>>::fixed_length() == Some(N as nat));
        }
        N
    }

    fn is_empty(&self) -> (r: bool) {
        N == 0
    }

    fn from_slice(slice: &[S]) -> (r: [S; N]) {
        let mut r = [S::default(); N];
        let mut i: usize = 0;
        while i < N
            invariant
                slice@.len() == N,
                r@.len() == N,
                i <= N,
                forall|k: int| 0 <= k < i ==> r@[k] == slice@[k],
            decreases N - i,
        {
            r[i] = slice[i];
            i += 1;
        }
        proof {
            assert(r@ =~= slice@);
        }
        r
    }

    fn as_slice(&self) -> (r: &[S]) {
        <[S; N]>::as_slice(self)
    }

    fn vget(&self, index: usize) -> (r: S) {
        self[index]
    }

    fn vset(&mut self, index: usize, value: S) {
        self[index] = value;
    }

    fn add(&self, other: &[S; N]) -> (r: [S; N]) {
        let mut r = *self;
        r.add_assign(other);
        r
    }

    fn add_assign(&mut self, other: &[S; N]) {
        let ghost orig = self@;
        let mut i: usize = 0;
        while i < N
            invariant
                orig.len() == N,
                other@.len() == N,
                self@.len() == N,
                i <= N,
                sum_ok(orig, other@),
                forall|k: int| 0 <= k < i ==> #[trigger] is_sum(orig[k], other@[k], self@[k]),
                forall|k: int| i <= k < N ==> self@[k] == orig[k],
            decreases N - i,
        {
            proof {
                assert(add_ok(orig[i as int], other@[i as int]));
            }
            self[i] = self[i] + other[i];
            i += 1;
        }
    }

    fn sub(&self, other: &[S; N]) -> (r: [S; N]) {
        let mut r = *self;
        r.sub_assign(other);
        r
    }

    fn sub_assign(&mut self, other: &[S; N]) {
        let ghost orig = self@;
        let mut i: usize = 0;
        while i < N
            invariant
                orig.len() == N,
                other@.len() == N,
                self@.len() == N,
                i <= N,
                difference_ok(orig, other@),
                forall|k: int|
                    0 <= k < i ==> #[trigger] is_difference(orig[k], other@[k], self@[k]),
                forall|k: int| i <= k < N ==> self@[k] == orig[k],
            decreases N - i,
        {
            proof {
                assert(sub_ok(orig[i as int], other@[i as int]));
            }
            self[i] = self[i] - other[i];
            i += 1;
        }
    }

    fn mul(&self, scalar: S) -> (r: [S; N]) {
        let mut r = *self;
        r.mul_assign(scalar);
        r
    }

    fn mul_assign(&mut self, scalar: S) {
        let ghost orig = self@;
        let mut i: usize = 0;
        while i < N
            invariant
                orig.len() == N,
                self@.len() == N,
                i <= N,
                scale_ok(orig, scalar),
                forall|k: int| 0 <= k < i ==> #[trigger] is_product(orig[k], scalar, self@[k]),
                forall|k: int| i <= k < N ==> self@[k] == orig[k],
            decreases N - i,
        {
            proof {
                assert(mul_ok(orig[i as int], scalar));
            }
            self[i] = self[i] * scalar;
            i += 1;
        }
    }

    fn div(&self, scalar: S) -> (r: [S; N]) {
        let mut r = *self;
        r.div_assign(scalar);
        r
    }

    fn div_assign(&mut self, scalar: S) {
        let ghost orig = self@;
        let mut i: usize = 0;
        while i < N
            invariant
                orig.len() == N,
                self@.len() == N,
                i <= N,
                divide_ok(orig, scalar),
                forall|k: int| 0 <= k < i ==> #[trigger] is_quotient(orig[k], scalar, self@[k]),
                forall|k: int| i <= k < N ==> self@[k] == orig[k],
            decreases N - i,
        {
            proof {
                assert(div_ok(orig[i as int], scalar));
            }
            self[i] = self[i] / scalar;
            i += 1;
        }
    }

    fn dot(&self, other: &[S; N]) -> (r: S) {
        let mut result = S::default();
        let ghost mut prods: Seq<S> = Seq::empty();
        let ghost mut sums: Seq<S> = seq![result];
        let mut i: usize = 0;
        while i < N
            invariant
                self@.len() == N,
                other@.len() == N,
                i <= N,
                dot_ok(self@, other@),
                is_dot_trace(self@, other@, prods, sums),
                prods.len() == i,
                sums.last() == result,
            decreases N - i,
        {
            proof {
                assert(mul_ok(self@[i as int], other@[i as int]));
            }
            let p = self[i] * other[i];
            proof {
                assert(is_product(self@[i as int], other@[i as int], p));
                assert(add_ok(result, p));
            }
            let next = result + p;
            proof {
                lemma_dot_trace_step(self@, other@, prods, sums, p, next);
                prods = prods.push(p);
                sums = sums.push(next);
            }
            result = next;
            i += 1;
        }
        result
    }
}

} // verus!
