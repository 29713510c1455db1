//! The scalar type of the library, `i64`, and what `num_traits` and `approx`
//! provide for it.
use vstd::prelude::*;
use crate::model::{divisible, fits, sign, trunc_div, trunc_rem};

verus! {

/// `Zero::zero` for `i64` is the literal `0`.
#[verifier::external_body]
pub(crate) fn scalar_zero() -> (r: i64)
    ensures
        r == 0,
{
    <i64 as num_traits::Zero>::zero()
}

/// `One::one` for `i64` is the literal `1`.
#[verifier::external_body]
pub(crate) fn scalar_one() -> (r: i64)
    ensures
        r == 1,
{
    <i64 as num_traits::One>::one()
}

/// `Zero::is_zero` for `i64` compares with `0`.
#[verifier::external_body]
pub(crate) fn scalar_is_zero(x: &i64) -> (r: bool)
    ensures
        r == (*x == 0),
{
    num_traits::Zero::is_zero(x)
}

/// `Signed::is_positive` for `i64` is `x > 0`.
#[verifier::external_body]
pub(crate) fn scalar_is_positive(x: &i64) -> (r: bool)
    ensures
        r == (*x > 0),
{
    num_traits::Signed::is_positive(x)
}

/// `Signed::is_negative` for `i64` is `x < 0`.
#[verifier::external_body]
pub(crate) fn scalar_is_negative(x: &i64) -> (r: bool)
    ensures
        r == (*x < 0),
{
    num_traits::Signed::is_negative(x)
}

/// `Signed::signum` for `i64` is `1`, `0` or `-1` with the sign of `x`.
#[verifier::external_body]
pub(crate) fn scalar_signum(x: &i64) -> (r: i64)
    ensures
        r == sign(*x as int),
{
    num_traits::Signed::signum(x)
}

/// `AbsDiffEq::default_epsilon` for `i64` is `0`.
#[verifier::external_body]
pub(crate) fn scalar_default_epsilon() -> (r: i64)
    ensures
        r == 0,
{
    <i64 as approx::AbsDiffEq>::default_epsilon()
}

/// `AbsDiffEq::abs_diff_eq` for `i64` computes `|a - b| <= epsilon` in `i64`;
/// a difference that leaves `i64`, or whose absolute value does, would make
/// it panic.
#[verifier::external_body]
pub(crate) fn scalar_abs_diff_eq(a: &i64, b: &i64, epsilon: i64) -> (r: bool)
    requires
        fits(*a - *b),
        *a - *b != i64::MIN,
    ensures
        r == (vstd::math::abs(*a - *b) <= epsilon),
{
    approx::AbsDiffEq::abs_diff_eq(a, b, epsilon)
}

/// The error of std's integer parser. Nothing is read from it: it is handed
/// on to the caller as it came.
#[verifier::external_type_specification]
#[verifier::external_body]
pub struct ExParseIntError(core::num::ParseIntError);

/// What parsing `text` as an integer in base `radix` yields: the number, or
/// `None` where the text is not a numeral of that base that fits `i64`.
pub uninterp spec fn parsed(text: Seq<char>, radix: u32) -> Option<i64>;

/// `Num::from_str_radix` for `i64` is `i64::from_str_radix`, which panics for
/// a radix outside `2..=36`. The result is a function of the text and the
/// radix alone; it is named, not described.
#[verifier::external_body]
pub(crate) fn scalar_from_str_radix(text: &str, radix: u32) -> (r: Result<
    i64,
    core::num::ParseIntError,
>)
    requires
        2 <= radix <= 36,
    ensures
        r.ok() == parsed(text@, radix),
{
    <i64 as num_traits::Num>::from_str_radix(text, radix)
}

/// The decimal digit `d`, for `0 <= d <= 9`.
pub open spec fn digit(d: int) -> char {
    seq!['0', '1', '2', '3', '4', '5', '6', '7', '8', '9'][d]
}

/// The decimal numeral of the natural number `n`, without leading zeros.
pub open spec fn numeral(n: nat) -> Seq<char>
    decreases n,
{
    if n < 10 {
        seq![digit(n as int)]
    } else {
        numeral(n / 10).push(digit(n as int % 10))
    }
}

/// The decimal numeral of `value`, with a leading `-` where it is negative.
pub open spec fn decimal_text(value: int) -> Seq<char> {
    if value < 0 {
        seq!['-'] + numeral((-value) as nat)
    } else {
        numeral(value as nat)
    }
}

/// `Display` for `i64` writes the value as a decimal numeral.
#[verifier::external_body]
pub(crate) fn scalar_text(value: &i64) -> (r: String)
    ensures
        r@ == decimal_text(*value as int),
{
    format!("{}", value)
}

/// The quotient of two scalars, rounded toward zero.
pub fn scalar_quot(a: i64, b: i64) -> (r: i64)
    requires
        divisible(a as int, b as int),
    ensures
        r == trunc_div(a as int, b as int),
{
    proof {
        lemma_trunc_div_fits(a as int, b as int);
    }
    a / b
}

/// The remainder of two scalars, with the sign of the dividend.
pub fn scalar_rem(a: i64, b: i64) -> (r: i64)
    requires
        divisible(a as int, b as int),
    ensures
        r == trunc_rem(a as int, b as int),
{
    proof {
        lemma_trunc_rem_fits(a as int, b as int);
    }
    a % b
}

/// A quotient rounded toward zero is no larger in magnitude than the
/// dividend, so it is representable whenever machine division is defined.
pub proof fn lemma_trunc_div_fits(a: int, b: int)
    requires
        fits(a),
        fits(b),
        divisible(a, b),
    ensures
        fits(trunc_div(a, b)),
{
    let m = if a >= 0 { a } else { -a };
    assert(-m <= m / b <= m) by (nonlinear_arith)
        requires
            m >= 0,
            b != 0,
    ;
    if b != -1 && m > 0 {
        assert(m / b > -m) by (nonlinear_arith)
            requires
                m > 0,
                b != 0,
                b != -1,
        ;
    }
}

/// The remainder is smaller in magnitude than the divisor.
pub proof fn lemma_trunc_rem_fits(a: int, b: int)
    requires
        fits(a),
        fits(b),
        b != 0,
    ensures
        fits(trunc_rem(a, b)),
{
    let m = if a >= 0 { a } else { -a };
    let d = if b >= 0 { b } else { -b };
    assert(0 <= m % b < d) by (nonlinear_arith)
        requires
            m >= 0,
            b != 0,
            d == (if b >= 0 { b } else { -b }),
    ;
}

/// The square of a nonzero scalar is positive, so dividing by it never
/// overflows.
pub proof fn lemma_square_positive(b: int)
    requires
        b != 0,
    ensures
        b * b > 0,
{
    assert(b * b > 0) by (nonlinear_arith)
        requires
            b != 0,
    ;
}

} // verus!
