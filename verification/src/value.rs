//! Second-order dual numbers: value, gradient and Hessian.
use vstd::prelude::*;
use crate::laws::{
    lemma_chained_symmetric, lemma_constant_symmetric, lemma_difference_symmetric,
    lemma_negation_symmetric, lemma_product_symmetric, lemma_quotient_symmetric,
    lemma_sum_symmetric,
};
use crate::linalg::{
    cols, ints, matrix_diff, matrix_neg, matrix_quot, matrix_scaled, matrix_sum, matrix_zeros,
    outer_product, vector_diff, vector_neg, vector_quot, vector_scaled, vector_sum, vector_zeros,
};
use crate::model::{
    chained, chained_in_range, constant, difference, difference_in_range, divisible, fits,
    is_null, mat_fits, mat_is_zero, mat_zero, negation, negation_in_range, product,
    product_in_range, quotient, quotient_in_range, remainder, seeded, sign, sum, sum_in_range,
    symmetric, vec_fits, vec_is_zero, vec_zero, Dual,
};
use crate::scalar::{
    lemma_square_positive, parsed, scalar_from_str_radix, scalar_is_negative,
    scalar_is_positive, scalar_is_zero, scalar_one, scalar_quot, scalar_rem, scalar_signum,
    scalar_zero,
};

verus! {

/// A value with its gradient and Hessian with respect to `N` independent
/// variables. The Hessian is held as `N` columns and is always symmetric.
#[derive(Clone, Copy, Debug)]
pub struct Value<const N: usize> {
    value: i64,
    grad: [i64; N],
    hess: [[i64; N]; N],
}

impl<const N: usize> View for Value<N> {
    type V = Dual;

    closed spec fn view(&self) -> Dual {
        Dual { value: self.value as int, grad: ints(self.grad), hess: cols(self.hess) }
    }
}

impl<const N: usize> Value<N> {
    #[verifier::type_invariant]
    spec fn hessian_symmetric(self) -> bool {
        symmetric(cols(self.hess))
    }

    /// Every dual number of this type has dimension `N`, and its value and
    /// derivatives are machine scalars.
    pub proof fn lemma_dimension(self)
        ensures
            self@.has_dim(N as nat),
            fits(self@.value),
            vec_fits(self@.grad),
            mat_fits(self@.hess),
    {
    }

    /// The primal value.
    pub fn value(&self) -> (r: &i64)
        ensures
            *r == self@.value,
    {
        &self.value
    }

    /// The gradient: entry `i` is the partial derivative by variable `i`.
    pub fn grad(&self) -> (r: &[i64; N])
        ensures
            ints(*r) == self@.grad,
    {
        &self.grad
    }

    /// The Hessian, as `N` columns. It is symmetric.
    pub fn hess(&self) -> (r: &[[i64; N]; N])
        ensures
            cols(*r) == self@.hess,
            symmetric(cols(*r)),
    {
        proof {
            use_type_invariant(self);
        }
        &self.hess
    }

    /// The constant `value`: gradient and Hessian are zero.
    pub fn new(value: i64) -> (r: Self)
        ensures
            r@ == constant(value as int, N as nat),
            symmetric(r@.hess),
    {
        let grad = vector_zeros::<N>();
        let hess = matrix_zeros::<N>();
        proof {
            lemma_constant_symmetric(value as int, N as nat);
        }
        Value { value, grad, hess }
    }

    /// The constant `value`, built from literals alone.
    pub fn new_const(value: i64) -> (r: Self)
        ensures
            r@ == constant(value as int, N as nat),
            symmetric(r@.hess),
    {
        let grad = [0i64; N];
        let hess = [[0i64; N]; N];
        proof {
            lemma_constant_symmetric(value as int, N as nat);
            assert(ints(grad) =~= vec_zero(N as nat));
            assert forall|c: int| 0 <= c < N implies #[trigger] cols(hess)[c] == vec_zero(
                N as nat,
            ) by {
                assert(ints(hess[c]) =~= vec_zero(N as nat));
            }
            assert(cols(hess) =~= mat_zero(N as nat));
        }
        Value { value, grad, hess }
    }

    /// Marks this dual number as the independent variable number `index`:
    /// entry `index` of the gradient becomes one, the rest stays.
    pub fn active(self, index: usize) -> (r: Self)
        requires
            index < N,
        ensures
            r@ == seeded(self@, index as int),
            symmetric(r@.hess),
    {
        proof {
            use_type_invariant(&self);
        }
        let mut grad = self.grad;
        grad[index] = scalar_one();
        proof {
            assert(ints(grad) =~= ints(self.grad).update(index as int, 1));
        }
        Value { value: self.value, grad, hess: self.hess }
    }

    /// The sum `self + rhs`: values, gradients and Hessians add.
    pub fn add(self, rhs: Self) -> (r: Self)
        requires
            sum_in_range(self@, rhs@),
        ensures
            r@ == sum(self@, rhs@),
            symmetric(r@.hess),
    {
        proof {
            use_type_invariant(&self);
            use_type_invariant(&rhs);
            lemma_sum_symmetric(self@, rhs@, N as nat);
        }
        Value {
            value: self.value + rhs.value,
            grad: vector_sum(&self.grad, &rhs.grad),
            hess: matrix_sum(&self.hess, &rhs.hess),
        }
    }

    /// The difference `self - rhs`: values, gradients and Hessians subtract.
    pub fn sub(self, rhs: Self) -> (r: Self)
        requires
            difference_in_range(self@, rhs@),
        ensures
            r@ == difference(self@, rhs@),
            symmetric(r@.hess),
    {
        proof {
            use_type_invariant(&self);
            use_type_invariant(&rhs);
            lemma_difference_symmetric(self@, rhs@, N as nat);
        }
        Value {
            value: self.value - rhs.value,
            grad: vector_diff(&self.grad, &rhs.grad),
            hess: matrix_diff(&self.hess, &rhs.hess),
        }
    }

    /// The negation `-self` of value, gradient and Hessian.
    pub fn neg(self) -> (r: Self)
        requires
            negation_in_range(self@),
        ensures
            r@ == negation(self@),
            symmetric(r@.hess),
    {
        proof {
            use_type_invariant(&self);
            lemma_negation_symmetric(self@, N as nat);
        }
        Value {
            value: -self.value,
            grad: vector_neg(&self.grad),
            hess: matrix_neg(&self.hess),
        }
    }

    /// The product `self * rhs` by the product rule.
    pub fn mul(self, rhs: Self) -> (r: Self)
        requires
            product_in_range(self@, rhs@),
        ensures
            r@ == product(self@, rhs@),
            symmetric(r@.hess),
    {
        proof {
            use_type_invariant(&self);
            use_type_invariant(&rhs);
            lemma_product_symmetric(self@, rhs@, N as nat);
        }
        let value = self.value * rhs.value;
        let s1 = matrix_sum(
            &matrix_scaled(&self.hess, rhs.value),
            &outer_product(&self.grad, &rhs.grad),
        );
        let s2 = matrix_sum(&s1, &outer_product(&rhs.grad, &self.grad));
        let hess = matrix_sum(&s2, &matrix_scaled(&rhs.hess, self.value));
        let grad = vector_sum(
            &vector_scaled(&self.grad, rhs.value),
            &vector_scaled(&rhs.grad, self.value),
        );
        Value { value, grad, hess }
    }

    /// The quotient `self / rhs` by the quotient rule. Values and derivatives
    /// are divided as integers, rounding toward zero.
    pub fn div(self, rhs: Self) -> (r: Self)
        requires
            quotient_in_range(self@, rhs@),
        ensures
            r@ == quotient(self@, rhs@),
            symmetric(r@.hess),
    {
        proof {
            use_type_invariant(&self);
            use_type_invariant(&rhs);
            lemma_quotient_symmetric(self@, rhs@, N as nat);
            lemma_square_positive(rhs.value as int);
        }
        let value = scalar_quot(self.value, rhs.value);
        let numerator = vector_diff(
            &vector_scaled(&self.grad, rhs.value),
            &vector_scaled(&rhs.grad, self.value),
        );
        let grad = vector_quot(&numerator, rhs.value * rhs.value);
        let d1 = matrix_diff(&self.hess, &outer_product(&grad, &rhs.grad));
        let d2 = matrix_diff(&d1, &outer_product(&rhs.grad, &grad));
        let d3 = matrix_diff(&d2, &matrix_scaled(&rhs.hess, value));
        let hess = matrix_quot(&d3, rhs.value);
        Value { value, grad, hess }
    }

    /// The remainder `self % rhs` of the values. Gradient and Hessian are
    /// those of `self`: the divisor contributes no derivative.
    pub fn rem(self, rhs: Self) -> (r: Self)
        requires
            divisible(self@.value, rhs@.value),
        ensures
            r@ == remainder(self@, rhs@),
            symmetric(r@.hess),
    {
        proof {
            use_type_invariant(&self);
        }
        Value { value: scalar_rem(self.value, rhs.value), grad: self.grad, hess: self.hess }
    }

    /// `self += rhs`.
    pub fn add_assign(&mut self, rhs: Self)
        requires
            sum_in_range(old(self)@, rhs@),
        ensures
            final(self)@ == sum(old(self)@, rhs@),
            symmetric(final(self)@.hess),
    {
        let lhs = *self;
        *self = lhs.add(rhs);
    }

    /// `self -= rhs`.
    pub fn sub_assign(&mut self, rhs: Self)
        requires
            difference_in_range(old(self)@, rhs@),
        ensures
            final(self)@ == difference(old(self)@, rhs@),
            symmetric(final(self)@.hess),
    {
        let lhs = *self;
        *self = lhs.sub(rhs);
    }

    /// `self *= rhs`.
    pub fn mul_assign(&mut self, rhs: Self)
        requires
            product_in_range(old(self)@, rhs@),
        ensures
            final(self)@ == product(old(self)@, rhs@),
            symmetric(final(self)@.hess),
    {
        let lhs = *self;
        *self = lhs.mul(rhs);
    }

    /// `self /= rhs`.
    pub fn div_assign(&mut self, rhs: Self)
        requires
            quotient_in_range(old(self)@, rhs@),
        ensures
            final(self)@ == quotient(old(self)@, rhs@),
            symmetric(final(self)@.hess),
    {
        let lhs = *self;
        *self = lhs.div(rhs);
    }

    /// `self %= rhs`.
    pub fn rem_assign(&mut self, rhs: Self)
        requires
            divisible(old(self)@.value, rhs@.value),
        ensures
            final(self)@ == remainder(old(self)@, rhs@),
            symmetric(final(self)@.hess),
    {
        let lhs = *self;
        *self = lhs.rem(rhs);
    }

    /// The chain rule: the dual number of `f(self)` for a scalar function `f`,
    /// given `value = f(x)`, `d1 = f'(x)` and `d2 = f''(x)` at the primal
    /// value `x` of `self`.
    pub fn chain(&self, value: i64, d1: i64, d2: i64) -> (r: Self)
        requires
            chained_in_range(self@, d1 as int, d2 as int),
        ensures
            r@ == chained(self@, value as int, d1 as int, d2 as int),
            symmetric(r@.hess),
    {
        proof {
            use_type_invariant(self);
            lemma_chained_symmetric(self@, value as int, d1 as int, d2 as int, N as nat);
        }
        let curvature = matrix_scaled(&outer_product(&self.grad, &self.grad), d2);
        let hess = matrix_sum(&curvature, &matrix_scaled(&self.hess, d1));
        let grad = vector_scaled(&self.grad, d1);
        Value { value, grad, hess }
    }

    /// The additive identity: the constant zero.
    pub fn zero() -> (r: Self)
        ensures
            r@ == constant(0, N as nat),
            symmetric(r@.hess),
    {
        Self::new(scalar_zero())
    }

    /// The multiplicative identity: the constant one.
    pub fn one() -> (r: Self)
        ensures
            r@ == constant(1, N as nat),
            symmetric(r@.hess),
    {
        Self::new(scalar_one())
    }

    /// Whether the value and every entry of gradient and Hessian are zero.
    pub fn is_zero(&self) -> (r: bool)
        ensures
            r == is_null(self@),
    {
        if !scalar_is_zero(&self.value) {
            return false;
        }
        let mut i: usize = 0;
        while i < N
            invariant
                0 <= i <= N,
                forall|k: int| 0 <= k < i ==> self.grad[k] == 0,
            decreases N - i,
        {
            if !scalar_is_zero(&self.grad[i]) {
                assert(ints(self.grad)[i as int] != 0);
                return false;
            }
            i += 1;
        }
        assert(vec_is_zero(ints(self.grad)));
        let mut c: usize = 0;
        while c < N
            invariant
                0 <= c <= N,
                forall|k: int| 0 <= k < c ==> vec_is_zero(#[trigger] cols(self.hess)[k]),
            decreases N - c,
        {
            let mut j: usize = 0;
            while j < N
                invariant
                    0 <= j <= N,
                    0 <= c < N,
                    forall|k: int| 0 <= k < j ==> self.hess[c as int][k] == 0,
                decreases N - j,
            {
                if !scalar_is_zero(&self.hess[c][j]) {
                    assert(cols(self.hess)[c as int][j as int] != 0);
                    return false;
                }
                j += 1;
            }
            assert(vec_is_zero(cols(self.hess)[c as int]));
            c += 1;
        }
        assert(mat_is_zero(cols(self.hess)));
        true
    }

    /// The multiplicative inverse `1 / self`, by the quotient rule.
    pub fn inv(self) -> (r: Self)
        requires
            quotient_in_range(constant(1, N as nat), self@),
        ensures
            r@ == quotient(constant(1, N as nat), self@),
            symmetric(r@.hess),
    {
        Self::one().div(self)
    }

    /// The absolute value: the negation of the whole dual number where the
    /// value is negative, the dual number itself otherwise.
    pub fn abs(&self) -> (r: Self)
        requires
            self@.value < 0 ==> negation_in_range(self@),
        ensures
            r@ == (if self@.value < 0 {
                negation(self@)
            } else {
                self@
            }),
            symmetric(r@.hess),
    {
        proof {
            use_type_invariant(self);
        }
        if scalar_is_negative(&self.value) {
            self.neg()
        } else {
            *self
        }
    }

    /// The positive difference: `self - other` where its value is positive,
    /// zero otherwise.
    pub fn abs_sub(&self, other: &Self) -> (r: Self)
        requires
            difference_in_range(self@, other@),
        ensures
            r@ == (if self@.value - other@.value > 0 {
                difference(self@, other@)
            } else {
                constant(0, N as nat)
            }),
            symmetric(r@.hess),
    {
        let result = self.sub(*other);
        if result.is_positive() {
            result
        } else {
            Self::zero()
        }
    }

    /// The sign of the value, as a constant.
    pub fn signum(&self) -> (r: Self)
        ensures
            r@ == constant(sign(self@.value), N as nat),
            symmetric(r@.hess),
    {
        Self::new(scalar_signum(&self.value))
    }

    /// Whether the value is positive.
    pub fn is_positive(&self) -> (r: bool)
        ensures
            r == (self@.value > 0),
    {
        scalar_is_positive(&self.value)
    }

    /// Whether the value is negative.
    pub fn is_negative(&self) -> (r: bool)
        ensures
            r == (self@.value < 0),
    {
        scalar_is_negative(&self.value)
    }

    /// The constant parsed from `text` in base `radix`, or the parser's error.
    pub fn from_str_radix(text: &str, radix: u32) -> (r: Result<Self, core::num::ParseIntError>)
        requires
            2 <= radix <= 36,
        ensures
            match parsed(text@, radix) {
                Some(value) => r.is_ok() && r.unwrap()@ == constant(value as int, N as nat),
                None => r.is_err(),
            },
    {
        Self::from_parsed(scalar_from_str_radix(text, radix))
    }

    /// The constant of a parsed value; a parse error is handed on unchanged.
    pub fn from_parsed(outcome: Result<i64, core::num::ParseIntError>) -> (r: Result<
        Self,
        core::num::ParseIntError,
    >)
        ensures
            match outcome {
                Ok(value) => r.is_ok() && r.unwrap()@ == constant(value as int, N as nat),
                Err(e) => r == Err::<Self, core::num::ParseIntError>(e),
            },
    {
        match outcome {
            Ok(value) => Ok(Self::new(value)),
            Err(e) => Err(e),
        }
    }
}

} // verus!
