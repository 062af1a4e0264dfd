use vstd::prelude::*;

use crate::elementwise::{
    difference_ok, divide_ok, dot_ok, is_dot_trace, lemma_dot_trace_step, is_zeros, scale_ok, sum_ok,
};
use crate::mat::Mat;
use crate::scalar::{
    add_ok, div_ok, is_difference, is_product, is_quotient, is_sum, mul_ok, sub_ok, Scalar,
};
use crate::vector::Vector;

verus! {

impl<S: Scalar> Vector<S> for Vec<S> {
    type MatrixNxN = Mat<S>;

    type MatrixMxN = Mat<S>;

    type DMatrixMxN = Mat<S>;

    type MatrixNxM = Mat<S>;

    type DMatrixNxM = Mat<S>;

    open spec fn elems(&self) -> Seq<S> {
        self@
    }

    open spec fn fixed_length() -> Option<nat> {
        None
    }

    fn is_statically_sized() -> (r: bool) {
        false
    }

    fn is_dynamically_sized() -> (r: bool) {
        true
    }

    fn new_with_length(len: usize) -> (r: Vec<S>) {
        let mut v: Vec<S> = Vec::with_capacity(len);
        let mut i: usize = 0;
        while i < len
            invariant
                i <= len,
                is_zeros(v@, i as nat),
            decreases len - i,
        {
            v.push(S::default());
            i += 1;
        }
        v
    }

    fn len(&self) -> (r: usize) {
        proof {
            assert(<Vec<S> as Vector<S>>::fixed_length() is None);
        }
        Vec::<S>::len(self)
    }

    fn is_empty(&self) -> (r: bool) {
        Vec::<S>::len(self) == 0
    }

    fn from_slice(slice: &[S]) -> (r: Vec<S>) {
        let mut v: Vec<S> = Vec::with_capacity(slice.len());
        let mut i: usize = 0;
        while i < slice.len()
            invariant
                i <= slice@.len(),
                v@ == slice@.subrange(0, i as int),
            decreases slice@.len() - i,
        {
            v.push(slice[i]);
            i += 1;
        }
        proof {
            assert(slice@.subrange(0, slice@.len() as int) == slice@);
        }
        v
    }

    fn as_slice(&self) -> (r: &[S]) {
        Vec::<S>::as_slice(self)
    }

    fn vget(&self, index: usize) -> (r: S) {
        self[index]
    }

    fn vset(&mut self, index: usize, value: S) {
        self.set(index, value);
    }

    fn add(&self, other: &Vec<S>) -> (r: Vec<S>) {
        let n = Vec::<S>::len(self);
        let mut v: Vec<S> = Vec::with_capacity(n);
        let mut i: usize = 0;
        while i < n
            invariant
                n == self@.len(),
                n == other@.len(),
                i <= n,
                sum_ok(self@, other@),
                v@.len() == i,
                forall|k: int| 0 <= k < i ==> #[trigger] is_sum(self@[k], other@[k], v@[k]),
            decreases n - i,
        {
            proof {
                assert(add_ok(self@[i as int], other@[i as int]));
            }
            v.push(self[i] + other[i]);
            i += 1;
        }
        v
    }

    fn add_assign(&mut self, other: &Vec<S>) {
        let ghost orig = self@;
        let n = Vec::<S>::len(self);
        let mut i: usize = 0;
        while i < n
            invariant
                n == orig.len(),
                n == other@.len(),
                self@.len() == n,
                i <= n,
                sum_ok(orig, other@),
                forall|k: int| 0 <= k < i ==> #[trigger] is_sum(orig[k], other@[k], self@[k]),
                forall|k: int| i <= k < n ==> self@[k] == orig[k],
            decreases n - i,
        {
            proof {
                assert(add_ok(orig[i as int], other@[i as int]));
            }
            let v = self[i] + other[i];
            self.set(i, v);
            i += 1;
        }
    }

    fn sub(&self, other: &Vec<S>) -> (r: Vec<S>) {
        let n = Vec::<S>::len(self);
        let mut v: Vec<S> = Vec::with_capacity(n);
        let mut i: usize = 0;
        while i < n
            invariant
                n == self@.len(),
                n == other@.len(),
                i <= n,
                difference_ok(self@, other@),
                v@.len() == i,
                forall|k: int|
                    0 <= k < i ==> #[trigger] is_difference(self@[k], other@[k], v@[k]),
            decreases n - i,
        {
            proof {
                assert(sub_ok(self@[i as int], other@[i as int]));
            }
            v.push(self[i] - other[i]);
            i += 1;
        }
        v
    }

    fn sub_assign(&mut self, other: &Vec<S>) {
        let ghost orig = self@;
        let n = Vec::<S>::len(self);
        let mut i: usize = 0;
        while i < n
            invariant
                n == orig.len(),
                n == other@.len(),
                self@.len() == n,
                i <= n,
                difference_ok(orig, other@),
                forall|k: int|
                    0 <= k < i ==> #[trigger] is_difference(orig[k], other@[k], self@[k]),
                forall|k: int| i <= k < n ==> self@[k] == orig[k],
            decreases n - i,
        {
            proof {
                assert(sub_ok(orig[i as int], other@[i as int]));
            }
            let v = self[i] - other[i];
            self.set(i, v);
            i += 1;
        }
    }

    fn mul(&self, scalar: S) -> (r: Vec<S>) {
        let n = Vec::<S>::len(self);
        let mut v: Vec<S> = Vec::with_capacity(n);
        let mut i: usize = 0;
        while i < n
            invariant
                n == self@.len(),
                i <= n,
                scale_ok(self@, scalar),
                v@.len() == i,
                forall|k: int| 0 <= k < i ==> #[trigger] is_product(self@[k], scalar, v@[k]),
            decreases n - i,
        {
            proof {
                assert(mul_ok(self@[i as int], scalar));
            }
            v.push(self[i] * scalar);
            i += 1;
        }
        v
    }

    fn mul_assign(&mut self, scalar: S) {
        let ghost orig = self@;
        let n = Vec::<S>::len(self);
        let mut i: usize = 0;
        while i < n
            invariant
                n == orig.len(),
                self@.len() == n,
                i <= n,
                scale_ok(orig, scalar),
                forall|k: int| 0 <= k < i ==> #[trigger] is_product(orig[k], scalar, self@[k]),
                forall|k: int| i <= k < n ==> self@[k] == orig[k],
            decreases n - i,
        {
            proof {
                assert(mul_ok(orig[i as int], scalar));
            }
            let v = self[i] * scalar;
            self.set(i, v);
            i += 1;
        }
    }

    fn div(&self, scalar: S) -> (r: Vec<S>) {
        let n = Vec::<S>::len(self);
        let mut v: Vec<S> = Vec::with_capacity(n);
        let mut i: usize = 0;
        while i < n
            invariant
                n == self@.len(),
                i <= n,
                divide_ok(self@, scalar),
                v@.len() == i,
                forall|k: int|
                    0 <= k < i ==> #[trigger] is_quotient(self@[k], scalar, v@[k]),
            decreases n - i,
        {
            proof {
                assert(div_ok(self@[i as int], scalar));
            }
            v.push(self[i] / scalar);
            i += 1;
        }
        v
    }

    fn div_assign(&mut self, scalar: S) {
        let ghost orig = self@;
        let n = Vec::<S>::len(self);
        let mut i: usize = 0;
        while i < n
            invariant
                n == orig.len(),
                self@.len() == n,
                i <= n,
                divide_ok(orig, scalar),
                forall|k: int|
                    0 <= k < i ==> #[trigger] is_quotient(orig[k], scalar, self@[k]),
                forall|k: int| i <= k < n ==> self@[k] == orig[k],
            decreases n - i,
        {
            proof {
                assert(div_ok(orig[i as int], scalar));
            }
            let v = self[i] / scalar;
            self.set(i, v);
            i += 1;
        }
    }

    fn dot(&self, other: &Vec<S>) -> (r: S) {
        let n = Vec::<S>::len(self);
        let mut result = S::default();
        let ghost mut prods: Seq<S> = Seq::empty();
        let ghost mut sums: Seq<S> = seq![result];
        let mut i: usize = 0;
        while i < n
            invariant
                n == self@.len(),
                n == other@.len(),
                i <= n,
                dot_ok(self@, other@),
                is_dot_trace(self@, other@, prods, sums),
                prods.len() == i,
                sums.last() == result,
            decreases n - i,
        {
            proof {
                assert(mul_ok(self@[i as int], other@[i as int]));
            }
            let p = self[i] * other[i];
            proof {
                assert(is_product(self@[i as int], other@[i as int], p));
                assert(add_ok(result, p));
            }
            let next = result + p;
            proof {
                lemma_dot_trace_step(self@, other@, prods, sums, p, next);
                prods = prods.push(p);
                sums = sums.push(next);
            }
            result = next;
            i += 1;
        }
        proof {
            assert(is_dot_trace(self@, other@, prods, sums));
        }
        result
    }
}

} // verus!
