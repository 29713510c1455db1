//! Equality, ordering and approximate equality of dual numbers. All of them
//! look at the primal value alone: two dual numbers with the same value are
//! equal whatever their derivatives are.
use vstd::prelude::*;
use vstd::std_specs::cmp::{PartialEqSpec, PartialOrdSpec};
use core::cmp::Ordering;
use crate::model::fits;
use crate::scalar::{scalar_abs_diff_eq, scalar_default_epsilon};
use crate::tin::Tin;
use crate::value::Value;

verus! {

/// How the integer `a` stands to the integer `b`.
pub open spec fn order(a: int, b: int) -> Ordering {
    if a < b {
        Ordering::Less
    } else if a == b {
        Ordering::Equal
    } else {
        Ordering::Greater
    }
}

/// How the scalar `a` stands to the scalar `b`.
pub fn scalar_order(a: i64, b: i64) -> (r: Ordering)
    ensures
        a < b ==> r == Ordering::Less,
        a == b ==> r == Ordering::Equal,
        a > b ==> r == Ordering::Greater,
{
    if a < b {
        Ordering::Less
    } else if a == b {
        Ordering::Equal
    } else {
        Ordering::Greater
    }
}

impl<const N: usize> PartialEq for Value<N> {
    fn eq(&self, other: &Self) -> (r: bool) {
        *self.value() == *other.value()
    }
}

impl<const N: usize> vstd::std_specs::cmp::PartialEqSpecImpl for Value<N> {
    open spec fn obeys_eq_spec() -> bool {
        true
    }

    open spec fn eq_spec(&self, other: &Self) -> bool {
        self@.value == other@.value
    }
}

impl<const N: usize> Eq for Value<N> {

}

impl<const N: usize> PartialOrd for Value<N> {
    fn partial_cmp(&self, other: &Self) -> (r: Option<Ordering>) {
        Some(scalar_order(*self.value(), *other.value()))
    }
}

impl<const N: usize> vstd::std_specs::cmp::PartialOrdSpecImpl for Value<N> {
    open spec fn obeys_partial_cmp_spec() -> bool {
        true
    }

    open spec fn partial_cmp_spec(&self, other: &Self) -> Option<Ordering> {
        Some(order(self@.value, other@.value))
    }
}

impl<const N: usize> Value<N> {
    /// The total order of the primal values.
    pub fn cmp(&self, other: &Self) -> (r: Ordering)
        ensures
            r == order(self@.value, other@.value),
    {
        scalar_order(*self.value(), *other.value())
    }

    /// The tolerance that `abs_diff_eq` is meant to be called with by
    /// default: none.
    pub fn default_epsilon() -> (r: i64)
        ensures
            r == 0,
    {
        scalar_default_epsilon()
    }

    /// Whether the primal values differ by at most `epsilon`.
    pub fn abs_diff_eq(&self, other: &Self, epsilon: i64) -> (r: bool)
        requires
            fits(self@.value - other@.value),
            self@.value - other@.value != i64::MIN,
        ensures
            r == (vstd::math::abs(self@.value - other@.value) <= epsilon),
    {
        scalar_abs_diff_eq(self.value(), other.value(), epsilon)
    }
}

impl<const N: usize> PartialEq for Tin<N> {
    fn eq(&self, other: &Self) -> (r: bool) {
        *self.value() == *other.value()
    }
}

impl<const N: usize> vstd::std_specs::cmp::PartialEqSpecImpl for Tin<N> {
    open spec fn obeys_eq_spec() -> bool {
        true
    }

    open spec fn eq_spec(&self, other: &Self) -> bool {
        self@.value == other@.value
    }
}

impl<const N: usize> Eq for Tin<N> {

}

impl<const N: usize> PartialOrd for Tin<N> {
    fn partial_cmp(&self, other: &Self) -> (r: Option<Ordering>) {
        Some(scalar_order(*self.value(), *other.value()))
    }
}

impl<const N: usize> vstd::std_specs::cmp::PartialOrdSpecImpl for Tin<N> {
    open spec fn obeys_partial_cmp_spec() -> bool {
        true
    }

    open spec fn partial_cmp_spec(&self, other: &Self) -> Option<Ordering> {
        Some(order(self@.value, other@.value))
    }
}

impl<const N: usize> Tin<N> {
    /// The total order of the primal values.
    pub fn cmp(&self, other: &Self) -> (r: Ordering)
        ensures
            r == order(self@.value, other@.value),
    {
        scalar_order(*self.value(), *other.value())
    }

    /// The tolerance that `abs_diff_eq` is meant to be called with by
    /// default: none.
    pub fn default_epsilon() -> (r: i64)
        ensures
            r == 0,
    {
        scalar_default_epsilon()
    }

    /// Whether the primal values differ by at most `epsilon`.
    pub fn abs_diff_eq(&self, other: &Self, epsilon: i64) -> (r: bool)
        requires
            fits(self@.value - other@.value),
            self@.value - other@.value != i64::MIN,
        ensures
            r == (vstd::math::abs(self@.value - other@.value) <= epsilon),
    {
        scalar_abs_diff_eq(self.value(), other.value(), epsilon)
    }
}

/// Equality and ordering ignore the derivatives: second-order dual numbers
/// with equal values are equal, and neither is less than the other.
pub proof fn lemma_value_equality_ignores_derivatives<const N: usize>(a: Value<N>, b: Value<N>)
    requires
        a@.value == b@.value,
    ensures
        a.eq_spec(&b),
        a.partial_cmp_spec(&b) == Some(Ordering::Equal),
{
}

/// Equality and ordering ignore the derivatives: first-order dual numbers
/// with equal values are equal, and neither is less than the other.
pub proof fn lemma_tin_equality_ignores_derivatives<const N: usize>(a: Tin<N>, b: Tin<N>)
    requires
        a@.value == b@.value,
    ensures
        a.eq_spec(&b),
        a.partial_cmp_spec(&b) == Some(Ordering::Equal),
{
}

} // verus!
