//! The mathematical model of dual numbers over the integers.
//!
//! A dual number is a primal value together with its first partial derivatives
//! (the gradient) and, for the second-order variant, its second partial
//! derivatives (the Hessian), all with respect to a fixed number of independent
//! variables. Everything here is specification: unbounded integers, sequences,
//! and the exact derivative-propagation rule of every operation.
//!
//! A matrix is a sequence of columns: `m[c][r]` is the entry in row `r` of
//! column `c`.
use vstd::prelude::*;

verus! {

/// A first-order dual number: a value and its gradient.
pub struct Jet {
    pub value: int,
    pub grad: Seq<int>,
}

/// A second-order dual number: a value, its gradient and its Hessian.
pub struct Dual {
    pub value: int,
    pub grad: Seq<int>,
    pub hess: Seq<Seq<int>>,
}

/// `x` is representable as a machine scalar.
pub open spec fn fits(x: int) -> bool {
    i64::MIN <= x <= i64::MAX
}

/// Quotient rounded toward zero, as machine division of signed integers does.
pub open spec fn trunc_div(a: int, b: int) -> int {
    if a >= 0 {
        a / b
    } else {
        -((-a) / b)
    }
}

/// Remainder that goes with `trunc_div`: it has the sign of the dividend.
pub open spec fn trunc_rem(a: int, b: int) -> int {
    if a >= 0 {
        a % b
    } else {
        -((-a) % b)
    }
}

/// Machine division of `a` by `b` neither divides by zero nor overflows.
pub open spec fn divisible(a: int, b: int) -> bool {
    b != 0 && !(a == i64::MIN && b == -1)
}

/// The sign of `x`: `1`, `0` or `-1`.
pub open spec fn sign(x: int) -> int {
    if x > 0 {
        1
    } else if x == 0 {
        0
    } else {
        -1
    }
}

// ---------------------------------------------------------------------------
// Vectors
// ---------------------------------------------------------------------------

pub open spec fn vec_fits(v: Seq<int>) -> bool {
    forall|i: int| 0 <= i < v.len() ==> fits(#[trigger] v[i])
}

pub open spec fn vec_zero(n: nat) -> Seq<int> {
    Seq::new(n, |i: int| 0int)
}

/// The standard basis vector of length `n` with its `1` at position `k`.
pub open spec fn basis(n: nat, k: int) -> Seq<int> {
    Seq::new(n, |i: int| if i == k { 1int } else { 0int })
}

pub open spec fn vec_sum(a: Seq<int>, b: Seq<int>) -> Seq<int> {
    Seq::new(a.len(), |i: int| a[i] + b[i])
}

pub open spec fn vec_diff(a: Seq<int>, b: Seq<int>) -> Seq<int> {
    Seq::new(a.len(), |i: int| a[i] - b[i])
}

pub open spec fn vec_neg(a: Seq<int>) -> Seq<int> {
    Seq::new(a.len(), |i: int| -a[i])
}

pub open spec fn vec_scaled(a: Seq<int>, k: int) -> Seq<int> {
    Seq::new(a.len(), |i: int| a[i] * k)
}

pub open spec fn vec_quot(a: Seq<int>, k: int) -> Seq<int> {
    Seq::new(a.len(), |i: int| trunc_div(a[i], k))
}

/// Every entry of `a` can be machine-divided by `k`.
pub open spec fn vec_divisible(a: Seq<int>, k: int) -> bool {
    forall|i: int| 0 <= i < a.len() ==> divisible(#[trigger] a[i], k)
}

pub open spec fn vec_is_zero(a: Seq<int>) -> bool {
    forall|i: int| 0 <= i < a.len() ==> #[trigger] a[i] == 0
}

// ---------------------------------------------------------------------------
// Matrices, column by column
// ---------------------------------------------------------------------------

/// `m` has `n` columns of `n` entries each.
pub open spec fn square(m: Seq<Seq<int>>, n: nat) -> bool {
    m.len() == n && forall|c: int| 0 <= c < n ==> (#[trigger] m[c]).len() == n
}

pub open spec fn symmetric(m: Seq<Seq<int>>) -> bool {
    forall|i: int, j: int|
        0 <= i < m.len() && 0 <= j < m.len() ==> (#[trigger] m[i][j]) == (#[trigger] m[j][i])
}

pub open spec fn mat_fits(m: Seq<Seq<int>>) -> bool {
    forall|c: int| 0 <= c < m.len() ==> vec_fits(#[trigger] m[c])
}

pub open spec fn mat_zero(n: nat) -> Seq<Seq<int>> {
    Seq::new(n, |c: int| vec_zero(n))
}

pub open spec fn mat_sum(a: Seq<Seq<int>>, b: Seq<Seq<int>>) -> Seq<Seq<int>> {
    Seq::new(a.len(), |c: int| vec_sum(a[c], b[c]))
}

pub open spec fn mat_diff(a: Seq<Seq<int>>, b: Seq<Seq<int>>) -> Seq<Seq<int>> {
    Seq::new(a.len(), |c: int| vec_diff(a[c], b[c]))
}

pub open spec fn mat_neg(a: Seq<Seq<int>>) -> Seq<Seq<int>> {
    Seq::new(a.len(), |c: int| vec_neg(a[c]))
}

pub open spec fn mat_scaled(a: Seq<Seq<int>>, k: int) -> Seq<Seq<int>> {
    Seq::new(a.len(), |c: int| vec_scaled(a[c], k))
}

pub open spec fn mat_quot(a: Seq<Seq<int>>, k: int) -> Seq<Seq<int>> {
    Seq::new(a.len(), |c: int| vec_quot(a[c], k))
}

pub open spec fn mat_divisible(a: Seq<Seq<int>>, k: int) -> bool {
    forall|c: int| 0 <= c < a.len() ==> vec_divisible(#[trigger] a[c], k)
}

pub open spec fn mat_is_zero(a: Seq<Seq<int>>) -> bool {
    forall|c: int| 0 <= c < a.len() ==> vec_is_zero(#[trigger] a[c])
}

/// The outer product of the column `a` with the row `b`: entry `(r, c)` is
/// `a[r] * b[c]`.
pub open spec fn outer(a: Seq<int>, b: Seq<int>) -> Seq<Seq<int>> {
    Seq::new(b.len(), |c: int| Seq::new(a.len(), |r: int| a[r] * b[c]))
}

// ---------------------------------------------------------------------------
// Second-order dual numbers
// ---------------------------------------------------------------------------

impl Dual {
    /// The dual number has dimension `n`.
    pub open spec fn has_dim(self, n: nat) -> bool {
        self.grad.len() == n && square(self.hess, n)
    }

    /// The first-order part.
    pub open spec fn jet(self) -> Jet {
        Jet { value: self.value, grad: self.grad }
    }
}

/// The constant `value`: all derivatives vanish.
pub open spec fn constant(value: int, n: nat) -> Dual {
    Dual { value, grad: vec_zero(n), hess: mat_zero(n) }
}

/// `d` marked as the independent variable number `k`.
pub open spec fn seeded(d: Dual, k: int) -> Dual {
    Dual { value: d.value, grad: d.grad.update(k, 1), hess: d.hess }
}

pub open spec fn sum(a: Dual, b: Dual) -> Dual {
    Dual {
        value: a.value + b.value,
        grad: vec_sum(a.grad, b.grad),
        hess: mat_sum(a.hess, b.hess),
    }
}

pub open spec fn sum_in_range(a: Dual, b: Dual) -> bool {
    fits(a.value + b.value) && vec_fits(vec_sum(a.grad, b.grad)) && mat_fits(
        mat_sum(a.hess, b.hess),
    )
}

pub open spec fn difference(a: Dual, b: Dual) -> Dual {
    Dual {
        value: a.value - b.value,
        grad: vec_diff(a.grad, b.grad),
        hess: mat_diff(a.hess, b.hess),
    }
}

pub open spec fn difference_in_range(a: Dual, b: Dual) -> bool {
    fits(a.value - b.value) && vec_fits(vec_diff(a.grad, b.grad)) && mat_fits(
        mat_diff(a.hess, b.hess),
    )
}

pub open spec fn negation(a: Dual) -> Dual {
    Dual { value: -a.value, grad: vec_neg(a.grad), hess: mat_neg(a.hess) }
}

pub open spec fn negation_in_range(a: Dual) -> bool {
    fits(-a.value) && vec_fits(vec_neg(a.grad)) && mat_fits(mat_neg(a.hess))
}

/// The product rule, to second order:
/// `(ab)' = a'b + b'a` and `(ab)'' = a''b + a'b'ᵗ + b'a'ᵗ + b''a`.
pub open spec fn product(a: Dual, b: Dual) -> Dual {
    Dual {
        value: a.value * b.value,
        grad: vec_sum(vec_scaled(a.grad, b.value), vec_scaled(b.grad, a.value)),
        hess: mat_sum(
            mat_sum(
                mat_sum(mat_scaled(a.hess, b.value), outer(a.grad, b.grad)),
                outer(b.grad, a.grad),
            ),
            mat_scaled(b.hess, a.value),
        ),
    }
}

/// Every partial result of `product`, in the order in which it is computed,
/// is representable.
pub open spec fn product_in_range(a: Dual, b: Dual) -> bool {
    let h1 = mat_scaled(a.hess, b.value);
    let o1 = outer(a.grad, b.grad);
    let o2 = outer(b.grad, a.grad);
    let h2 = mat_scaled(b.hess, a.value);
    &&& fits(a.value * b.value)
    &&& vec_fits(vec_scaled(a.grad, b.value))
    &&& vec_fits(vec_scaled(b.grad, a.value))
    &&& vec_fits(product(a, b).grad)
    &&& mat_fits(h1)
    &&& mat_fits(o1)
    &&& mat_fits(mat_sum(h1, o1))
    &&& mat_fits(o2)
    &&& mat_fits(mat_sum(mat_sum(h1, o1), o2))
    &&& mat_fits(h2)
    &&& mat_fits(product(a, b).hess)
}

/// The gradient of a quotient: `(a'b - b'a) / b²`.
pub open spec fn quotient_grad(a: Jet, b: Jet) -> Seq<int> {
    vec_quot(
        vec_diff(vec_scaled(a.grad, b.value), vec_scaled(b.grad, a.value)),
        b.value * b.value,
    )
}

/// The quotient rule, to second order. With `q = a / b` the Hessian is
/// `(a'' - q'b'ᵗ - b'q'ᵗ - b''q) / b`.
pub open spec fn quotient(a: Dual, b: Dual) -> Dual {
    let value = trunc_div(a.value, b.value);
    let grad = quotient_grad(a.jet(), b.jet());
    Dual {
        value,
        grad,
        hess: mat_quot(
            mat_diff(
                mat_diff(mat_diff(a.hess, outer(grad, b.grad)), outer(b.grad, grad)),
                mat_scaled(b.hess, value),
            ),
            b.value,
        ),
    }
}

/// The divisor is not zero and every partial result of `quotient`, in the
/// order in which it is computed, is representable.
pub open spec fn quotient_in_range(a: Dual, b: Dual) -> bool {
    let value = trunc_div(a.value, b.value);
    let grad = quotient_grad(a.jet(), b.jet());
    let o1 = outer(grad, b.grad);
    let o2 = outer(b.grad, grad);
    let h = mat_scaled(b.hess, value);
    let d1 = mat_diff(a.hess, o1);
    let d2 = mat_diff(d1, o2);
    let d3 = mat_diff(d2, h);
    &&& jet_quotient_in_range(a.jet(), b.jet())
    &&& mat_fits(o1)
    &&& mat_fits(d1)
    &&& mat_fits(o2)
    &&& mat_fits(d2)
    &&& mat_fits(h)
    &&& mat_fits(d3)
    &&& mat_divisible(d3, b.value)
}

/// The remainder of the values; the derivatives are those of the dividend.
pub open spec fn remainder(a: Dual, b: Dual) -> Dual {
    Dual { value: trunc_rem(a.value, b.value), grad: a.grad, hess: a.hess }
}

/// The chain rule, to second order, for a scalar function `f` applied to `a`:
/// `value` is `f(a)`, `d1` is `f'(a)` and `d2` is `f''(a)`. The gradient is
/// `a' d1`, the Hessian `a'a'ᵗ d2 + a'' d1`.
pub open spec fn chained(a: Dual, value: int, d1: int, d2: int) -> Dual {
    Dual {
        value,
        grad: vec_scaled(a.grad, d1),
        hess: mat_sum(mat_scaled(outer(a.grad, a.grad), d2), mat_scaled(a.hess, d1)),
    }
}

pub open spec fn chained_in_range(a: Dual, d1: int, d2: int) -> bool {
    &&& vec_fits(vec_scaled(a.grad, d1))
    &&& mat_fits(outer(a.grad, a.grad))
    &&& mat_fits(mat_scaled(outer(a.grad, a.grad), d2))
    &&& mat_fits(mat_scaled(a.hess, d1))
    &&& mat_fits(chained(a, 0, d1, d2).hess)
}

/// Value and every derivative are zero.
pub open spec fn is_null(a: Dual) -> bool {
    a.value == 0 && vec_is_zero(a.grad) && mat_is_zero(a.hess)
}

// ---------------------------------------------------------------------------
// First-order dual numbers
// ---------------------------------------------------------------------------

pub open spec fn jet_constant(value: int, n: nat) -> Jet {
    Jet { value, grad: vec_zero(n) }
}

pub open spec fn jet_seeded(d: Jet, k: int) -> Jet {
    Jet { value: d.value, grad: d.grad.update(k, 1) }
}

pub open spec fn jet_sum(a: Jet, b: Jet) -> Jet {
    Jet { value: a.value + b.value, grad: vec_sum(a.grad, b.grad) }
}

pub open spec fn jet_sum_in_range(a: Jet, b: Jet) -> bool {
    fits(a.value + b.value) && vec_fits(vec_sum(a.grad, b.grad))
}

pub open spec fn jet_difference(a: Jet, b: Jet) -> Jet {
    Jet { value: a.value - b.value, grad: vec_diff(a.grad, b.grad) }
}

pub open spec fn jet_difference_in_range(a: Jet, b: Jet) -> bool {
    fits(a.value - b.value) && vec_fits(vec_diff(a.grad, b.grad))
}

pub open spec fn jet_negation(a: Jet) -> Jet {
    Jet { value: -a.value, grad: vec_neg(a.grad) }
}

pub open spec fn jet_negation_in_range(a: Jet) -> bool {
    fits(-a.value) && vec_fits(vec_neg(a.grad))
}

/// The product rule: `(ab)' = a'b + b'a`.
pub open spec fn jet_product(a: Jet, b: Jet) -> Jet {
    Jet {
        value: a.value * b.value,
        grad: vec_sum(vec_scaled(a.grad, b.value), vec_scaled(b.grad, a.value)),
    }
}

pub open spec fn jet_product_in_range(a: Jet, b: Jet) -> bool {
    &&& fits(a.value * b.value)
    &&& vec_fits(vec_scaled(a.grad, b.value))
    &&& vec_fits(vec_scaled(b.grad, a.value))
    &&& vec_fits(jet_product(a, b).grad)
}

/// The quotient rule: `(a/b)' = (a'b - b'a) / b²`.
pub open spec fn jet_quotient(a: Jet, b: Jet) -> Jet {
    Jet { value: trunc_div(a.value, b.value), grad: quotient_grad(a, b) }
}

pub open spec fn jet_quotient_in_range(a: Jet, b: Jet) -> bool {
    &&& divisible(a.value, b.value)
    &&& fits(b.value * b.value)
    &&& vec_fits(vec_scaled(a.grad, b.value))
    &&& vec_fits(vec_scaled(b.grad, a.value))
    &&& vec_fits(vec_diff(vec_scaled(a.grad, b.value), vec_scaled(b.grad, a.value)))
}

pub open spec fn jet_remainder(a: Jet, b: Jet) -> Jet {
    Jet { value: trunc_rem(a.value, b.value), grad: a.grad }
}

/// The chain rule: the gradient of `f(a)` is `a' f'(a)`.
pub open spec fn jet_chained(a: Jet, value: int, d1: int) -> Jet {
    Jet { value, grad: vec_scaled(a.grad, d1) }
}

pub open spec fn jet_is_null(a: Jet) -> bool {
    a.value == 0 && vec_is_zero(a.grad)
}

} // verus!
