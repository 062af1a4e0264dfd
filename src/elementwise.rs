use vstd::prelude::*;

use crate::scalar::{
    add_ok, div_ok, is_difference, is_product, is_quotient, is_sum, is_zero, mul_ok, sub_ok,
    Scalar,
};

verus! {

/// `s` holds `n` zeros.
pub open spec fn is_zeros<S: Scalar>(s: Seq<S>, n: nat) -> bool {
    &&& s.len() == n
    &&& forall|i: int| 0 <= i < n ==> #[trigger] is_zero(s[i])
}

/// Every elementwise sum of `a` and `b` may be evaluated.
pub open spec fn sum_ok<S: Scalar>(a: Seq<S>, b: Seq<S>) -> bool {
    forall|i: int| 0 <= i < a.len() ==> #[trigger] add_ok(a[i], b[i])
}

/// `r` is the elementwise sum of `a` and `b`.
pub open spec fn is_elementwise_sum<S: Scalar>(a: Seq<S>, b: Seq<S>, r: Seq<S>) -> bool {
    &&& r.len() == a.len()
    &&& forall|i: int| 0 <= i < a.len() ==> #[trigger] is_sum(a[i], b[i], r[i])
}

/// Every elementwise difference of `a` and `b` may be evaluated.
pub open spec fn difference_ok<S: Scalar>(a: Seq<S>, b: Seq<S>) -> bool {
    forall|i: int| 0 <= i < a.len() ==> #[trigger] sub_ok(a[i], b[i])
}

/// `r` is the elementwise difference `a - b`.
pub open spec fn is_elementwise_difference<S: Scalar>(a: Seq<S>, b: Seq<S>, r: Seq<S>) -> bool {
    &&& r.len() == a.len()
    &&& forall|i: int| 0 <= i < a.len() ==> #[trigger] is_difference(a[i], b[i], r[i])
}

/// Every element of `a` may be multiplied by `k`.
pub open spec fn scale_ok<S: Scalar>(a: Seq<S>, k: S) -> bool {
    forall|i: int| 0 <= i < a.len() ==> #[trigger] mul_ok(a[i], k)
}

/// `r` is `a` with each element multiplied by `k`.
pub open spec fn is_scaled<S: Scalar>(a: Seq<S>, k: S, r: Seq<S>) -> bool {
    &&& r.len() == a.len()
    &&& forall|i: int| 0 <= i < a.len() ==> #[trigger] is_product(a[i], k, r[i])
}

/// Every element of `a` may be divided by `k`.
pub open spec fn divide_ok<S: Scalar>(a: Seq<S>, k: S) -> bool {
    forall|i: int| 0 <= i < a.len() ==> #[trigger] div_ok(a[i], k)
}

/// `r` is `a` with each element divided by `k`.
pub open spec fn is_divided<S: Scalar>(a: Seq<S>, k: S, r: Seq<S>) -> bool {
    &&& r.len() == a.len()
    &&& forall|i: int| 0 <= i < a.len() ==> #[trigger] is_quotient(a[i], k, r[i])
}

/// `prods` and `sums` trace the dot product of `a` and `b` over the first `prods.len()`
/// indices: `prods[i]` is a value of `a[i] * b[i]`, `sums` starts at zero and each next value of
/// it is a value of the one before plus the next product.
pub open spec fn is_dot_trace<S: Scalar>(a: Seq<S>, b: Seq<S>, prods: Seq<S>, sums: Seq<S>) -> bool {
    &&& prods.len() <= a.len()
    &&& prods.len() <= b.len()
    &&& sums.len() == prods.len() + 1
    &&& is_zero(sums[0])
    &&& forall|i: int|
        0 <= i < prods.len() ==> #[trigger] is_product(a[i], b[i], prods[i]) && is_sum(
            sums[i],
            prods[i],
            sums[i + 1],
        )
}

/// `r` is the dot product of `a` and `b`: the sum of the products `a[i] * b[i]`, accumulated
/// from zero in index order.
pub open spec fn is_dot<S: Scalar>(a: Seq<S>, b: Seq<S>, r: S) -> bool {
    exists|prods: Seq<S>, sums: Seq<S>|
        #[trigger] is_dot_trace(a, b, prods, sums) && prods.len() == a.len() && sums.last() == r
}

/// Every step of the dot product of `a` and `b` may be evaluated.
pub open spec fn dot_ok<S: Scalar>(a: Seq<S>, b: Seq<S>) -> bool {
    forall|prods: Seq<S>, sums: Seq<S>|
        #[trigger] is_dot_trace(a, b, prods, sums) && prods.len() < a.len() ==> {
            &&& mul_ok(a[prods.len() as int], b[prods.len() as int])
            &&& forall|p: S|
                #[trigger] is_product(a[prods.len() as int], b[prods.len() as int], p) ==> add_ok(
                    sums.last(),
                    p,
                )
        }
}

/// A dot-product trace extended by one more product and sum.
pub proof fn lemma_dot_trace_step<S: Scalar>(
    a: Seq<S>,
    b: Seq<S>,
    prods: Seq<S>,
    sums: Seq<S>,
    p: S,
    next: S,
)
    requires
        is_dot_trace(a, b, prods, sums),
        prods.len() < a.len(),
        prods.len() < b.len(),
        is_product(a[prods.len() as int], b[prods.len() as int], p),
        is_sum(sums.last(), p, next),
    ensures
        is_dot_trace(a, b, prods.push(p), sums.push(next)),
{
    let prods2 = prods.push(p);
    let sums2 = sums.push(next);
    assert forall|i: int| 0 <= i < prods2.len() implies #[trigger] is_product(
        a[i],
        b[i],
        prods2[i],
    ) && is_sum(sums2[i], prods2[i], sums2[i + 1]) by {
        if i < prods.len() {
            assert(is_product(a[i], b[i], prods[i]));
        }
    }
}

} // verus!
