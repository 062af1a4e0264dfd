use vstd::prelude::*;

verus! {

/// Element type of vectors and matrices.
///
/// A scalar is a plain copyable value that can be added, subtracted, multiplied and divided
/// with another value of its own type, compared for equality and order, and printed for
/// debugging. Its zero is the value that `Default::default` returns (`0.0` for the floating
/// point types, `0` for the integer types).
///
/// Any type with these capabilities is a scalar: there is nothing to implement.
///
/// What an arithmetic operation returns is stated in terms of the operator's own contract:
/// `is_sum(a, b, r)` says that `r` is a value that `a + b` may return, and `add_ok(a, b)`
/// that `a + b` may be evaluated (for the integer types: that it does not overflow).
pub trait Scalar:
    Copy
    + Default
    + PartialEq
    + PartialOrd
    + core::fmt::Debug
    + core::ops::Add<Output = Self>
    + core::ops::Sub<Output = Self>
    + core::ops::Mul<Output = Self>
    + core::ops::Div<Output = Self>
    + 'static
{
}

impl<T> Scalar for T where
    T: Copy
    + Default
    + PartialEq
    + PartialOrd
    + core::fmt::Debug
    + core::ops::Add<Output = T>
    + core::ops::Sub<Output = T>
    + core::ops::Mul<Output = T>
    + core::ops::Div<Output = T>
    + 'static
{
}

/// `z` is the zero of `S`: a value that `S::default()` returns.
pub open spec fn is_zero<S: Scalar>(z: S) -> bool {
    call_ensures(S::default, (), z)
}

/// `a + b` may be evaluated.
pub open spec fn add_ok<S: Scalar>(a: S, b: S) -> bool {
    call_requires(<S as core::ops::Add>::add, (a, b))
}

/// `r` is a value that `a + b` returns.
pub open spec fn is_sum<S: Scalar>(a: S, b: S, r: S) -> bool {
    call_ensures(<S as core::ops::Add>::add, (a, b), r)
}

/// `a - b` may be evaluated.
pub open spec fn sub_ok<S: Scalar>(a: S, b: S) -> bool {
    call_requires(<S as core::ops::Sub>::sub, (a, b))
}

/// `r` is a value that `a - b` returns.
pub open spec fn is_difference<S: Scalar>(a: S, b: S, r: S) -> bool {
    call_ensures(<S as core::ops::Sub>::sub, (a, b), r)
}

/// `a * b` may be evaluated.
pub open spec fn mul_ok<S: Scalar>(a: S, b: S) -> bool {
    call_requires(<S as core::ops::Mul>::mul, (a, b))
}

/// `r` is a value that `a * b` returns.
pub open spec fn is_product<S: Scalar>(a: S, b: S, r: S) -> bool {
    call_ensures(<S as core::ops::Mul>::mul, (a, b), r)
}

/// `a / b` may be evaluated (for the integer types: `b` is not zero and the quotient fits).
pub open spec fn div_ok<S: Scalar>(a: S, b: S) -> bool {
    call_requires(<S as core::ops::Div>::div, (a, b))
}

/// `r` is a value that `a / b` returns.
pub open spec fn is_quotient<S: Scalar>(a: S, b: S, r: S) -> bool {
    call_ensures(<S as core::ops::Div>::div, (a, b), r)
}

} // verus!
