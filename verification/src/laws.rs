//! Laws of the dual-number algebra, proved over the mathematical model.
use vstd::prelude::*;
use crate::model::{
    basis, chained, constant, difference, jet_chained, jet_constant, jet_difference,
    jet_negation, jet_product, jet_quotient, jet_remainder, jet_seeded, jet_sum, mat_zero,
    negation, product, quotient, remainder, seeded, sum, symmetric, trunc_div, trunc_rem,
    vec_scaled, vec_sum, Dual, Jet,
};

verus! {

// ---------------------------------------------------------------------------
// The Hessian stays symmetric
// ---------------------------------------------------------------------------

/// The zero matrix is symmetric, so every constant has a symmetric Hessian.
pub proof fn lemma_constant_symmetric(value: int, n: nat)
    ensures
        symmetric(constant(value, n).hess),
        constant(value, n).has_dim(n),
{
    assert(symmetric(mat_zero(n)));
}

/// Seeding leaves the Hessian as it is.
pub proof fn lemma_seeded_symmetric(a: Dual, k: int, n: nat)
    requires
        a.has_dim(n),
        symmetric(a.hess),
        0 <= k < n,
    ensures
        symmetric(seeded(a, k).hess),
        seeded(a, k).has_dim(n),
{
}

/// A sum of dual numbers with symmetric Hessians has a symmetric Hessian.
pub proof fn lemma_sum_symmetric(a: Dual, b: Dual, n: nat)
    requires
        a.has_dim(n),
        b.has_dim(n),
        symmetric(a.hess),
        symmetric(b.hess),
    ensures
        symmetric(sum(a, b).hess),
        sum(a, b).has_dim(n),
{
    let s = sum(a, b);
    assert forall|i: int, j: int| 0 <= i < n && 0 <= j < n implies s.hess[i][j] == s.hess[j][i] by {
        assert(a.hess[i][j] == a.hess[j][i]);
        assert(b.hess[i][j] == b.hess[j][i]);
    }
}

/// A difference of dual numbers with symmetric Hessians has a symmetric
/// Hessian.
pub proof fn lemma_difference_symmetric(a: Dual, b: Dual, n: nat)
    requires
        a.has_dim(n),
        b.has_dim(n),
        symmetric(a.hess),
        symmetric(b.hess),
    ensures
        symmetric(difference(a, b).hess),
        difference(a, b).has_dim(n),
{
    let s = difference(a, b);
    assert forall|i: int, j: int| 0 <= i < n && 0 <= j < n implies s.hess[i][j] == s.hess[j][i] by {
        assert(a.hess[i][j] == a.hess[j][i]);
        assert(b.hess[i][j] == b.hess[j][i]);
    }
}

/// The negation of a dual number with a symmetric Hessian has a symmetric
/// Hessian.
pub proof fn lemma_negation_symmetric(a: Dual, n: nat)
    requires
        a.has_dim(n),
        symmetric(a.hess),
    ensures
        symmetric(negation(a).hess),
        negation(a).has_dim(n),
{
    let s = negation(a);
    assert forall|i: int, j: int| 0 <= i < n && 0 <= j < n implies s.hess[i][j] == s.hess[j][i] by {
        assert(a.hess[i][j] == a.hess[j][i]);
    }
}

/// A product of dual numbers with symmetric Hessians has a symmetric Hessian:
/// the two outer products are each other's transpose.
pub proof fn lemma_product_symmetric(a: Dual, b: Dual, n: nat)
    requires
        a.has_dim(n),
        b.has_dim(n),
        symmetric(a.hess),
        symmetric(b.hess),
    ensures
        symmetric(product(a, b).hess),
        product(a, b).has_dim(n),
{
    let p = product(a, b);
    assert forall|i: int, j: int| 0 <= i < n && 0 <= j < n implies p.hess[i][j] == p.hess[j][i] by {
        assert(a.hess[i][j] == a.hess[j][i]);
        assert(b.hess[i][j] == b.hess[j][i]);
        assert(a.grad[j] * b.grad[i] == b.grad[i] * a.grad[j]) by (nonlinear_arith);
        assert(b.grad[j] * a.grad[i] == a.grad[i] * b.grad[j]) by (nonlinear_arith);
    }
}

/// A quotient of dual numbers with symmetric Hessians has a symmetric
/// Hessian.
pub proof fn lemma_quotient_symmetric(a: Dual, b: Dual, n: nat)
    requires
        a.has_dim(n),
        b.has_dim(n),
        symmetric(a.hess),
        symmetric(b.hess),
    ensures
        symmetric(quotient(a, b).hess),
        quotient(a, b).has_dim(n),
{
    let q = quotient(a, b);
    let g = q.grad;
    assert forall|i: int, j: int| 0 <= i < n && 0 <= j < n implies q.hess[i][j] == q.hess[j][i] by {
        assert(a.hess[i][j] == a.hess[j][i]);
        assert(b.hess[i][j] == b.hess[j][i]);
        assert(g[j] * b.grad[i] == b.grad[i] * g[j]) by (nonlinear_arith);
        assert(g[i] * b.grad[j] == b.grad[j] * g[i]) by (nonlinear_arith);
    }
}

/// The remainder keeps the Hessian of the dividend.
pub proof fn lemma_remainder_symmetric(a: Dual, b: Dual, n: nat)
    requires
        a.has_dim(n),
        symmetric(a.hess),
    ensures
        symmetric(remainder(a, b).hess),
        remainder(a, b).has_dim(n),
{
}

/// The chain rule applied to a dual number with a symmetric Hessian gives a
/// symmetric Hessian.
pub proof fn lemma_chained_symmetric(a: Dual, value: int, d1: int, d2: int, n: nat)
    requires
        a.has_dim(n),
        symmetric(a.hess),
    ensures
        symmetric(chained(a, value, d1, d2).hess),
        chained(a, value, d1, d2).has_dim(n),
{
    let c = chained(a, value, d1, d2);
    assert forall|i: int, j: int| 0 <= i < n && 0 <= j < n implies c.hess[i][j] == c.hess[j][i] by {
        assert(a.hess[i][j] == a.hess[j][i]);
        assert(a.grad[j] * a.grad[i] == a.grad[i] * a.grad[j]) by (nonlinear_arith);
    }
}

// ---------------------------------------------------------------------------
// Linearity, identities, seeding
// ---------------------------------------------------------------------------

/// Differentiation is additive: the gradient of a sum is the sum of the
/// gradients, entry by entry.
pub proof fn lemma_sum_gradient(a: Dual, b: Dual, i: int)
    requires
        a.grad.len() == b.grad.len(),
        0 <= i < a.grad.len(),
    ensures
        sum(a, b).grad[i] == a.grad[i] + b.grad[i],
        sum(a, b).grad == vec_sum(a.grad, b.grad),
{
}

/// Differentiation is homogeneous: multiplying by a dual number `c` whose
/// derivatives are zero multiplies the gradient by the value of `c`.
pub proof fn lemma_constant_multiple_gradient(c: Dual, a: Dual, n: nat)
    requires
        c.has_dim(n),
        a.has_dim(n),
        c.grad == constant(c.value, n).grad,
    ensures
        product(c, a).grad == vec_scaled(a.grad, c.value),
        product(a, c).grad == vec_scaled(a.grad, c.value),
{
    assert forall|i: int| 0 <= i < n implies product(c, a).grad[i] == a.grad[i] * c.value by {
        assert(c.grad[i] == 0);
        assert(c.grad[i] * a.value == 0) by (nonlinear_arith)
            requires
                c.grad[i] == 0,
        ;
    }
    assert(product(c, a).grad =~= vec_scaled(a.grad, c.value));
    assert forall|i: int| 0 <= i < n implies product(a, c).grad[i] == a.grad[i] * c.value by {
        assert(c.grad[i] == 0);
        assert(c.grad[i] * a.value == 0) by (nonlinear_arith)
            requires
                c.grad[i] == 0,
        ;
    }
    assert(product(a, c).grad =~= vec_scaled(a.grad, c.value));
}

/// The product rule, entry by entry.
pub proof fn lemma_product_rule(a: Dual, b: Dual, i: int)
    requires
        a.grad.len() == b.grad.len(),
        0 <= i < a.grad.len(),
    ensures
        product(a, b).value == a.value * b.value,
        product(a, b).grad[i] == a.grad[i] * b.value + b.grad[i] * a.value,
{
}

/// A freshly seeded constant has the standard basis vector as its gradient
/// and no second derivatives.
pub proof fn lemma_seed_is_basis(value: int, n: nat, k: int)
    requires
        0 <= k < n,
    ensures
        seeded(constant(value, n), k).value == value,
        seeded(constant(value, n), k).grad == basis(n, k),
        seeded(constant(value, n), k).hess == mat_zero(n),
{
    assert(seeded(constant(value, n), k).grad =~= basis(n, k));
}

/// Zero is the identity of addition, in value, gradient and Hessian.
pub proof fn lemma_add_zero(a: Dual, n: nat)
    requires
        a.has_dim(n),
    ensures
        sum(a, constant(0, n)) == a,
        sum(constant(0, n), a) == a,
{
    let z = constant(0, n);
    let l = sum(a, z);
    let r = sum(z, a);
    assert(l.grad =~= a.grad);
    assert(r.grad =~= a.grad);
    assert forall|c: int| 0 <= c < n implies l.hess[c] == a.hess[c] && r.hess[c] == a.hess[c] by {
        assert(l.hess[c] =~= a.hess[c]);
        assert(r.hess[c] =~= a.hess[c]);
    }
    assert(l.hess =~= a.hess);
    assert(r.hess =~= a.hess);
}

/// One is the identity of multiplication, in value, gradient and Hessian.
pub proof fn lemma_mul_one(a: Dual, n: nat)
    requires
        a.has_dim(n),
    ensures
        product(a, constant(1, n)) == a,
        product(constant(1, n), a) == a,
{
    let u = constant(1, n);
    let l = product(a, u);
    let r = product(u, a);
    assert(l.grad =~= a.grad);
    assert(r.grad =~= a.grad);
    assert forall|c: int| 0 <= c < n implies l.hess[c] == a.hess[c] && r.hess[c] == a.hess[c] by {
        assert(l.hess[c] =~= a.hess[c]);
        assert(r.hess[c] =~= a.hess[c]);
    }
    assert(l.hess =~= a.hess);
    assert(r.hess =~= a.hess);
}

// ---------------------------------------------------------------------------
// Quotients and the chain rule
// ---------------------------------------------------------------------------

/// Quotient and remainder of two integers recompose the dividend.
pub proof fn lemma_div_rem(a: int, b: int)
    requires
        b != 0,
    ensures
        b * trunc_div(a, b) + trunc_rem(a, b) == a,
{
    let m = if a >= 0 { a } else { -a };
    assert(b * (m / b) + m % b == m) by (nonlinear_arith)
        requires
            b != 0,
    ;
    assert(b * (-(m / b)) == -(b * (m / b))) by (nonlinear_arith);
}

/// Division rounded toward zero undoes a multiplication exactly.
pub proof fn lemma_div_of_multiple(x: int, k: int)
    requires
        k != 0,
    ensures
        trunc_div(x * k, k) == x,
{
    let p = x * k;
    if p >= 0 {
        assert((x * k) / k == x) by (nonlinear_arith)
            requires
                k != 0,
        ;
    } else {
        assert(-p == (-x) * k) by (nonlinear_arith)
            requires
                p == x * k,
        ;
        assert(((-x) * k) / k == -x) by (nonlinear_arith)
            requires
                k != 0,
        ;
    }
}

/// The quotient rule, entry by entry, in integers.
pub proof fn lemma_quotient_rule(a: Dual, b: Dual, i: int)
    requires
        a.grad.len() == b.grad.len(),
        0 <= i < a.grad.len(),
    ensures
        quotient(a, b).value == trunc_div(a.value, b.value),
        quotient(a, b).grad[i] == trunc_div(
            a.grad[i] * b.value - b.grad[i] * a.value,
            b.value * b.value,
        ),
{
}

/// Dividing a product by one of its factors gives back the other factor, in
/// value, gradient and Hessian: here the quotient rule is exact.
pub proof fn lemma_quotient_of_product(a: Dual, b: Dual, n: nat)
    requires
        a.has_dim(n),
        b.has_dim(n),
        b.value != 0,
    ensures
        quotient(product(a, b), b) == a,
{
    let p = product(a, b);
    let q = quotient(p, b);
    let k = b.value;
    lemma_div_of_multiple(a.value, k);
    assert(k * k != 0) by (nonlinear_arith)
        requires
            k != 0,
    ;
    assert forall|i: int| 0 <= i < n implies q.grad[i] == a.grad[i] by {
        let num = p.grad[i] * k - b.grad[i] * p.value;
        assert(num == a.grad[i] * (k * k)) by (nonlinear_arith)
            requires
                num == (a.grad[i] * k + b.grad[i] * a.value) * k - b.grad[i] * (a.value * k),
        ;
        lemma_div_of_multiple(a.grad[i], k * k);
    }
    assert(q.grad =~= a.grad);
    assert forall|c: int| 0 <= c < n implies q.hess[c] == a.hess[c] by {
        assert forall|r: int| 0 <= r < n implies q.hess[c][r] == a.hess[c][r] by {
            let h = a.hess[c][r];
            let u = a.grad[r] * b.grad[c];
            let v = b.grad[r] * a.grad[c];
            let w = b.hess[c][r] * a.value;
            assert(p.hess[c][r] == h * k + u + v + w);
            assert(q.grad[r] == a.grad[r]);
            assert(q.grad[c] == a.grad[c]);
            assert(q.hess[c][r] == trunc_div(p.hess[c][r] - u - v - w, k));
            lemma_div_of_multiple(h, k);
        }
        assert(q.hess[c] =~= a.hess[c]);
    }
    assert(q.hess =~= a.hess);
}

/// The chain rule for the identity function changes nothing.
pub proof fn lemma_chain_identity(a: Dual, n: nat)
    requires
        a.has_dim(n),
    ensures
        chained(a, a.value, 1, 0) == a,
{
    let c = chained(a, a.value, 1, 0);
    assert(c.grad =~= a.grad);
    assert forall|k: int| 0 <= k < n implies c.hess[k] == a.hess[k] by {
        assert(c.hess[k] =~= a.hess[k]);
    }
    assert(c.hess =~= a.hess);
}

/// The chain rule for the square function `f(u) = u²`, with `f' = 2u` and
/// `f'' = 2`, agrees with the product rule for `a * a`.
pub proof fn lemma_chain_square(a: Dual, n: nat)
    requires
        a.has_dim(n),
    ensures
        chained(a, a.value * a.value, 2 * a.value, 2) == product(a, a),
{
    let c = chained(a, a.value * a.value, 2 * a.value, 2);
    let p = product(a, a);
    let v = a.value;
    assert forall|i: int| 0 <= i < n implies c.grad[i] == p.grad[i] by {
        assert(a.grad[i] * (2 * v) == a.grad[i] * v + a.grad[i] * v) by (nonlinear_arith);
    }
    assert(c.grad =~= p.grad);
    assert forall|k: int| 0 <= k < n implies c.hess[k] == p.hess[k] by {
        assert forall|r: int| 0 <= r < n implies c.hess[k][r] == p.hess[k][r] by {
            let h = a.hess[k][r];
            let x = a.grad[r];
            let y = a.grad[k];
            assert(c.hess[k][r] == (x * y) * 2 + h * (2 * v));
            assert(p.hess[k][r] == h * v + x * y + y * x + h * v);
            assert((x * y) * 2 + h * (2 * v) == h * v + x * y + y * x + h * v)
                by (nonlinear_arith);
        }
        assert(c.hess[k] =~= p.hess[k]);
    }
    assert(c.hess =~= p.hess);
}

/// Multiplication of dual numbers is commutative.
pub proof fn lemma_product_commutes(a: Dual, b: Dual, n: nat)
    requires
        a.has_dim(n),
        b.has_dim(n),
    ensures
        product(a, b) == product(b, a),
{
    let l = product(a, b);
    let r = product(b, a);
    assert(l.value == r.value) by (nonlinear_arith)
        requires
            l.value == a.value * b.value,
            r.value == b.value * a.value,
    ;
    assert(l.grad =~= r.grad);
    assert forall|c: int| 0 <= c < n implies l.hess[c] == r.hess[c] by {
        assert(l.hess[c] =~= r.hess[c]);
    }
    assert(l.hess =~= r.hess);
}

/// Subtracting is adding the negation, and a dual number minus itself is
/// zero.
pub proof fn lemma_difference_is_sum_of_negation(a: Dual, b: Dual, n: nat)
    requires
        a.has_dim(n),
        b.has_dim(n),
    ensures
        difference(a, b) == sum(a, negation(b)),
        difference(a, a) == constant(0, n),
{
    let d = difference(a, b);
    let s = sum(a, negation(b));
    assert(d.grad =~= s.grad);
    assert forall|c: int| 0 <= c < n implies d.hess[c] == s.hess[c] by {
        assert(d.hess[c] =~= s.hess[c]);
    }
    assert(d.hess =~= s.hess);
    let z = difference(a, a);
    let o = constant(0, n);
    assert(z.grad =~= o.grad);
    assert forall|c: int| 0 <= c < n implies z.hess[c] == o.hess[c] by {
        assert(z.hess[c] =~= o.hess[c]);
    }
    assert(z.hess =~= o.hess);
}

// ---------------------------------------------------------------------------
// The two variants agree to first order
// ---------------------------------------------------------------------------

/// Tracking the Hessian does not change values and gradients: the first-order
/// part of every second-order operation is the first-order operation on the
/// first-order parts.
pub proof fn lemma_first_order_agrees(a: Dual, b: Dual, n: nat, k: int, value: int, d1: int, d2: int)
    ensures
        constant(value, n).jet() == jet_constant(value, n),
        seeded(a, k).jet() == jet_seeded(a.jet(), k),
        sum(a, b).jet() == jet_sum(a.jet(), b.jet()),
        difference(a, b).jet() == jet_difference(a.jet(), b.jet()),
        negation(a).jet() == jet_negation(a.jet()),
        product(a, b).jet() == jet_product(a.jet(), b.jet()),
        quotient(a, b).jet() == jet_quotient(a.jet(), b.jet()),
        remainder(a, b).jet() == jet_remainder(a.jet(), b.jet()),
        chained(a, value, d1, d2).jet() == jet_chained(a.jet(), value, d1),
{
}

// ---------------------------------------------------------------------------
// The same laws to first order
// ---------------------------------------------------------------------------

/// A freshly seeded first-order constant has the standard basis vector as
/// its gradient.
pub proof fn lemma_jet_seed_is_basis(value: int, n: nat, k: int)
    requires
        0 <= k < n,
    ensures
        jet_seeded(jet_constant(value, n), k).value == value,
        jet_seeded(jet_constant(value, n), k).grad == basis(n, k),
{
    assert(jet_seeded(jet_constant(value, n), k).grad =~= basis(n, k));
}

/// To first order, the gradient of a sum is the sum of the gradients, and
/// multiplying by a constant multiplies the gradient by its value.
pub proof fn lemma_jet_linear(c: Jet, a: Jet, b: Jet, n: nat)
    requires
        a.grad.len() == n,
        b.grad.len() == n,
        c.grad == jet_constant(c.value, n).grad,
    ensures
        jet_sum(a, b).grad == vec_sum(a.grad, b.grad),
        jet_product(c, a).grad == vec_scaled(a.grad, c.value),
{
    assert forall|i: int| 0 <= i < n implies jet_product(c, a).grad[i] == a.grad[i] * c.value by {
        assert(c.grad[i] * a.value == 0) by (nonlinear_arith)
            requires
                c.grad[i] == 0,
        ;
    }
    assert(jet_product(c, a).grad =~= vec_scaled(a.grad, c.value));
}

/// To first order, zero is the identity of addition and one the identity of
/// multiplication.
pub proof fn lemma_jet_identities(a: Jet, n: nat)
    requires
        a.grad.len() == n,
    ensures
        jet_sum(a, jet_constant(0, n)) == a,
        jet_product(a, jet_constant(1, n)) == a,
{
    assert(jet_sum(a, jet_constant(0, n)).grad =~= a.grad);
    assert(jet_product(a, jet_constant(1, n)).grad =~= a.grad);
}

/// To first order, dividing a product by one of its factors gives back the
/// other factor.
pub proof fn lemma_jet_quotient_of_product(a: Jet, b: Jet, n: nat)
    requires
        a.grad.len() == n,
        b.grad.len() == n,
        b.value != 0,
    ensures
        jet_quotient(jet_product(a, b), b) == a,
{
    let p = jet_product(a, b);
    let q = jet_quotient(p, b);
    let k = b.value;
    lemma_div_of_multiple(a.value, k);
    assert(k * k != 0) by (nonlinear_arith)
        requires
            k != 0,
    ;
    assert forall|i: int| 0 <= i < n implies q.grad[i] == a.grad[i] by {
        let num = p.grad[i] * k - b.grad[i] * p.value;
        assert(num == a.grad[i] * (k * k)) by (nonlinear_arith)
            requires
                num == (a.grad[i] * k + b.grad[i] * a.value) * k - b.grad[i] * (a.value * k),
        ;
        lemma_div_of_multiple(a.grad[i], k * k);
    }
    assert(q.grad =~= a.grad);
}

} // verus!
