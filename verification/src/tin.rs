//! First-order dual numbers: value and gradient.
use vstd::prelude::*;
use vstd::string::StringExecFns;
use crate::linalg::{
    ints, vector_diff, vector_neg, vector_quot, vector_scaled, vector_sum, vector_zeros,
};
use crate::model::{
    divisible, fits, jet_chained, jet_constant, jet_difference, jet_difference_in_range, jet_is_null,
    jet_negation, jet_negation_in_range, jet_product, jet_product_in_range, jet_quotient,
    jet_quotient_in_range, jet_remainder, jet_seeded, jet_sum, jet_sum_in_range, sign,
    vec_fits, vec_is_zero, vec_scaled, vec_zero, Jet,
};
use crate::scalar::{
    decimal_text, lemma_square_positive, parsed, scalar_from_str_radix, scalar_is_negative,
    scalar_is_positive, scalar_is_zero, scalar_one, scalar_quot, scalar_rem, scalar_signum,
    scalar_text, scalar_zero,
};

verus! {

/// A value with its gradient with respect to `N` independent variables.
#[derive(Clone, Copy, Debug)]
pub struct Tin<const N: usize> {
    value: i64,
    grad: [i64; N],
}

impl<const N: usize> View for Tin<N> {
    type V = Jet;

    closed spec fn view(&self) -> Jet {
        Jet { value: self.value as int, grad: ints(self.grad) }
    }
}

impl<const N: usize> Tin<N> {
    /// Every dual number of this type has `N` partial derivatives, and its
    /// value and derivatives are machine scalars.
    pub proof fn lemma_dimension(self)
        ensures
            self@.grad.len() == N,
            fits(self@.value),
            vec_fits(self@.grad),
    {
    }

    /// The primal value.
    pub fn value(&self) -> (r: &i64)
        ensures
            *r == self@.value,
    {
        &self.value
    }

    /// The gradient: entry `i` is the partial derivative by variable `i`.
    pub fn grad(&self) -> (r: &[i64; N])
        ensures
            ints(*r) == self@.grad,
    {
        &self.grad
    }

    /// The constant `value`: the gradient is zero.
    pub fn new(value: i64) -> (r: Self)
        ensures
            r@ == jet_constant(value as int, N as nat),
    {
        Tin { value, grad: vector_zeros::<N>() }
    }

    /// The constant `value`, built from literals alone.
    pub fn new_const(value: i64) -> (r: Self)
        ensures
            r@ == jet_constant(value as int, N as nat),
    {
        let grad = [0i64; N];
        proof {
            assert(ints(grad) =~= vec_zero(N as nat));
        }
        Tin { value, grad }
    }

    /// Marks this dual number as the independent variable number `index`:
    /// entry `index` of the gradient becomes one, the rest stays.
    pub fn active(self, index: usize) -> (r: Self)
        requires
            index < N,
        ensures
            r@ == jet_seeded(self@, index as int),
    {
        let mut grad = self.grad;
        grad[index] = scalar_one();
        proof {
            assert(ints(grad) =~= ints(self.grad).update(index as int, 1));
        }
        Tin { value: self.value, grad }
    }

    /// The sum `self + rhs`: values and gradients add.
    pub fn add(self, rhs: Self) -> (r: Self)
        requires
            jet_sum_in_range(self@, rhs@),
        ensures
            r@ == jet_sum(self@, rhs@),
    {
        Tin { value: self.value + rhs.value, grad: vector_sum(&self.grad, &rhs.grad) }
    }

    /// The difference `self - rhs`: values and gradients subtract.
    pub fn sub(self, rhs: Self) -> (r: Self)
        requires
            jet_difference_in_range(self@, rhs@),
        ensures
            r@ == jet_difference(self@, rhs@),
    {
        Tin { value: self.value - rhs.value, grad: vector_diff(&self.grad, &rhs.grad) }
    }

    /// The negation `-self` of value and gradient.
    pub fn neg(self) -> (r: Self)
        requires
            jet_negation_in_range(self@),
        ensures
            r@ == jet_negation(self@),
    {
        Tin { value: -self.value, grad: vector_neg(&self.grad) }
    }

    /// The product `self * rhs` by the product rule.
    pub fn mul(self, rhs: Self) -> (r: Self)
        requires
            jet_product_in_range(self@, rhs@),
        ensures
            r@ == jet_product(self@, rhs@),
    {
        Tin {
            value: self.value * rhs.value,
            grad: vector_sum(
                &vector_scaled(&self.grad, rhs.value),
                &vector_scaled(&rhs.grad, self.value),
            ),
        }
    }

    /// The quotient `self / rhs` by the quotient rule. Value and derivatives
    /// are divided as integers, rounding toward zero.
    pub fn div(self, rhs: Self) -> (r: Self)
        requires
            jet_quotient_in_range(self@, rhs@),
        ensures
            r@ == jet_quotient(self@, rhs@),
    {
        proof {
            lemma_square_positive(rhs.value as int);
        }
        let value = scalar_quot(self.value, rhs.value);
        let numerator = vector_diff(
            &vector_scaled(&self.grad, rhs.value),
            &vector_scaled(&rhs.grad, self.value),
        );
        let grad = vector_quot(&numerator, rhs.value * rhs.value);
        Tin { value, grad }
    }

    /// The remainder `self % rhs` of the values. The gradient is that of
    /// `self`: the divisor contributes no derivative.
    pub fn rem(self, rhs: Self) -> (r: Self)
        requires
            divisible(self@.value, rhs@.value),
        ensures
            r@ == jet_remainder(self@, rhs@),
    {
        Tin { value: scalar_rem(self.value, rhs.value), grad: self.grad }
    }

    /// `self += rhs`.
    pub fn add_assign(&mut self, rhs: Self)
        requires
            jet_sum_in_range(old(self)@, rhs@),
        ensures
            final(self)@ == jet_sum(old(self)@, rhs@),
    {
        let lhs = *self;
        *self = lhs.add(rhs);
    }

    /// `self -= rhs`.
    pub fn sub_assign(&mut self, rhs: Self)
        requires
            jet_difference_in_range(old(self)@, rhs@),
        ensures
            final(self)@ == jet_difference(old(self)@, rhs@),
    {
        let lhs = *self;
        *self = lhs.sub(rhs);
    }

    /// `self *= rhs`.
    pub fn mul_assign(&mut self, rhs: Self)
        requires
            jet_product_in_range(old(self)@, rhs@),
        ensures
            final(self)@ == jet_product(old(self)@, rhs@),
    {
        let lhs = *self;
        *self = lhs.mul(rhs);
    }

    /// `self /= rhs`.
    pub fn div_assign(&mut self, rhs: Self)
        requires
            jet_quotient_in_range(old(self)@, rhs@),
        ensures
            final(self)@ == jet_quotient(old(self)@, rhs@),
    {
        let lhs = *self;
        *self = lhs.div(rhs);
    }

    /// `self %= rhs`.
    pub fn rem_assign(&mut self, rhs: Self)
        requires
            divisible(old(self)@.value, rhs@.value),
        ensures
            final(self)@ == jet_remainder(old(self)@, rhs@),
    {
        let lhs = *self;
        *self = lhs.rem(rhs);
    }

    /// The chain rule: the dual number of `f(self)` for a scalar function `f`,
    /// given `value = f(x)` and `d1 = f'(x)` at the primal value `x` of
    /// `self`.
    pub fn chain(&self, value: i64, d1: i64) -> (r: Self)
        requires
            vec_fits(vec_scaled(self@.grad, d1 as int)),
        ensures
            r@ == jet_chained(self@, value as int, d1 as int),
    {
        Tin { value, grad: vector_scaled(&self.grad, d1) }
    }

    /// The additive identity: the constant zero.
    pub fn zero() -> (r: Self)
        ensures
            r@ == jet_constant(0, N as nat),
    {
        Self::new(scalar_zero())
    }

    /// The multiplicative identity: the constant one.
    pub fn one() -> (r: Self)
        ensures
            r@ == jet_constant(1, N as nat),
    {
        Self::new(scalar_one())
    }

    /// Whether the value and every entry of the gradient are zero.
    pub fn is_zero(&self) -> (r: bool)
        ensures
            r == jet_is_null(self@),
    {
        if !scalar_is_zero(&self.value) {
            return false;
        }
        let mut i: usize = 0;
        while i < N
            invariant
                0 <= i <= N,
                forall|k: int| 0 <= k < i ==> self.grad[k] == 0,
            decreases N - i,
        {
            if !scalar_is_zero(&self.grad[i]) {
                assert(ints(self.grad)[i as int] != 0);
                return false;
            }
            i += 1;
        }
        assert(vec_is_zero(ints(self.grad)));
        true
    }

    /// The multiplicative inverse `1 / self`, by the quotient rule.
    pub fn inv(self) -> (r: Self)
        requires
            jet_quotient_in_range(jet_constant(1, N as nat), self@),
        ensures
            r@ == jet_quotient(jet_constant(1, N as nat), self@),
    {
        Self::one().div(self)
    }

    /// The absolute value: the negation of the whole dual number where the
    /// value is negative, the dual number itself otherwise.
    pub fn abs(&self) -> (r: Self)
        requires
            self@.value < 0 ==> jet_negation_in_range(self@),
        ensures
            r@ == (if self@.value < 0 {
                jet_negation(self@)
            } else {
                self@
            }),
    {
        if scalar_is_negative(&self.value) {
            self.neg()
        } else {
            *self
        }
    }

    /// The positive difference: `self - other` where its value is positive,
    /// zero otherwise.
    pub fn abs_sub(&self, other: &Self) -> (r: Self)
        requires
            jet_difference_in_range(self@, other@),
        ensures
            r@ == (if self@.value - other@.value > 0 {
                jet_difference(self@, other@)
            } else {
                jet_constant(0, N as nat)
            }),
    {
        let result = self.sub(*other);
        if result.is_positive() {
            result
        } else {
            Self::zero()
        }
    }

    /// The sign of the value, as a constant.
    pub fn signum(&self) -> (r: Self)
        ensures
            r@ == jet_constant(sign(self@.value), N as nat),
    {
        Self::new(scalar_signum(&self.value))
    }

    /// Whether the value is positive.
    pub fn is_positive(&self) -> (r: bool)
        ensures
            r == (self@.value > 0),
    {
        scalar_is_positive(&self.value)
    }

    /// Whether the value is negative.
    pub fn is_negative(&self) -> (r: bool)
        ensures
            r == (self@.value < 0),
    {
        scalar_is_negative(&self.value)
    }

    /// The constant parsed from `text` in base `radix`, or the parser's error.
    pub fn from_str_radix(text: &str, radix: u32) -> (r: Result<Self, core::num::ParseIntError>)
        requires
            2 <= radix <= 36,
        ensures
            match parsed(text@, radix) {
                Some(value) => r.is_ok() && r.unwrap()@ == jet_constant(value as int, N as nat),
                None => r.is_err(),
            },
    {
        Self::from_parsed(scalar_from_str_radix(text, radix))
    }

    /// The constant of a parsed value; a parse error is handed on unchanged.
    pub fn from_parsed(outcome: Result<i64, core::num::ParseIntError>) -> (r: Result<
        Self,
        core::num::ParseIntError,
    >)
        ensures
            match outcome {
                Ok(value) => r.is_ok() && r.unwrap()@ == jet_constant(value as int, N as nat),
                Err(e) => r == Err::<Self, core::num::ParseIntError>(e),
            },
    {
        match outcome {
            Ok(value) => Ok(Self::new(value)),
            Err(e) => Err(e),
        }
    }

    /// The textual form: the primal value in decimal between `Tin[` and `]`.
    /// The derivatives are left out.
    pub fn to_string(&self) -> (r: String)
        ensures
            r@ == "Tin["@ + decimal_text(self@.value) + "]"@,
    {
        let digits = scalar_text(&self.value);
        let mut text = String::from_str("Tin[");
        text.append(digits.as_str());
        text.append("]");
        text
    }
}

} // verus!
