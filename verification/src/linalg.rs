//! Fixed-size vector and matrix arithmetic, done by `nalgebra`.
//!
//! Gradients are arrays `[i64; N]`, Hessians arrays of `N` columns
//! `[[i64; N]; N]`. Each function below converts its arguments to `nalgebra`'s
//! statically sized vector or matrix, lets `nalgebra` compute, and converts
//! the result back. Their contracts are not proved: they record what
//! `nalgebra` computes entry by entry.
use vstd::prelude::*;
use crate::model::{
    mat_diff, mat_divisible, mat_fits, mat_neg, mat_quot, mat_scaled, mat_sum, mat_zero, outer,
    vec_diff, vec_divisible, vec_fits, vec_neg, vec_quot, vec_scaled, vec_sum, vec_zero,
};

verus! {

/// The entries of a vector as mathematical integers.
pub open spec fn ints<const N: usize>(a: [i64; N]) -> Seq<int> {
    Seq::new(N as nat, |i: int| a[i] as int)
}

/// The columns of a matrix as sequences of mathematical integers.
pub open spec fn cols<const N: usize>(m: [[i64; N]; N]) -> Seq<Seq<int>> {
    Seq::new(N as nat, |c: int| ints(m[c]))
}

/// `SVector::zeros`: the vector whose entries are all zero.
#[verifier::external_body]
pub(crate) fn vector_zeros<const N: usize>() -> (r: [i64; N])
    ensures
        ints(r) == vec_zero(N as nat),
{
    nalgebra::SVector::<i64, N>::zeros().into()
}

/// `SMatrix::zeros`: the matrix whose entries are all zero.
#[verifier::external_body]
pub(crate) fn matrix_zeros<const N: usize>() -> (r: [[i64; N]; N])
    ensures
        cols(r) == mat_zero(N as nat),
{
    nalgebra::SMatrix::<i64, N, N>::zeros().into()
}

/// `+` on two vectors adds entry by entry. An entry that overflows would make
/// it panic, so those inputs are excluded.
#[verifier::external_body]
pub(crate) fn vector_sum<const N: usize>(a: &[i64; N], b: &[i64; N]) -> (r: [i64; N])
    requires
        vec_fits(vec_sum(ints(*a), ints(*b))),
    ensures
        ints(r) == vec_sum(ints(*a), ints(*b)),
{
    (nalgebra::SVector::<i64, N>::from(*a) + nalgebra::SVector::<i64, N>::from(*b)).into()
}

/// `-` on two vectors subtracts entry by entry.
#[verifier::external_body]
pub(crate) fn vector_diff<const N: usize>(a: &[i64; N], b: &[i64; N]) -> (r: [i64; N])
    requires
        vec_fits(vec_diff(ints(*a), ints(*b))),
    ensures
        ints(r) == vec_diff(ints(*a), ints(*b)),
{
    (nalgebra::SVector::<i64, N>::from(*a) - nalgebra::SVector::<i64, N>::from(*b)).into()
}

/// Unary `-` on a vector negates every entry.
#[verifier::external_body]
pub(crate) fn vector_neg<const N: usize>(a: &[i64; N]) -> (r: [i64; N])
    requires
        vec_fits(vec_neg(ints(*a))),
    ensures
        ints(r) == vec_neg(ints(*a)),
{
    (-nalgebra::SVector::<i64, N>::from(*a)).into()
}

/// A vector `*` a scalar multiplies every entry by the scalar.
#[verifier::external_body]
pub(crate) fn vector_scaled<const N: usize>(a: &[i64; N], k: i64) -> (r: [i64; N])
    requires
        vec_fits(vec_scaled(ints(*a), k as int)),
    ensures
        ints(r) == vec_scaled(ints(*a), k as int),
{
    (nalgebra::SVector::<i64, N>::from(*a) * k).into()
}

/// A vector `/` a scalar divides every entry by the scalar, rounding toward
/// zero as `i64` does. Division by zero and the one overflowing quotient
/// would make it panic.
#[verifier::external_body]
pub(crate) fn vector_quot<const N: usize>(a: &[i64; N], k: i64) -> (r: [i64; N])
    requires
        k != 0,
        vec_divisible(ints(*a), k as int),
    ensures
        ints(r) == vec_quot(ints(*a), k as int),
{
    (nalgebra::SVector::<i64, N>::from(*a) / k).into()
}

/// A column vector `*` a transposed vector is their outer product: the entry
/// in row `r` and column `c` is `a[r] * b[c]`.
#[verifier::external_body]
pub(crate) fn outer_product<const N: usize>(a: &[i64; N], b: &[i64; N]) -> (r: [[i64; N]; N])
    requires
        mat_fits(outer(ints(*a), ints(*b))),
    ensures
        cols(r) == outer(ints(*a), ints(*b)),
{
    let column = nalgebra::SVector::<i64, N>::from(*a);
    let row = nalgebra::SVector::<i64, N>::from(*b).transpose();
    (column * row).into()
}

/// `+` on two matrices adds entry by entry.
#[verifier::external_body]
pub(crate) fn matrix_sum<const N: usize>(a: &[[i64; N]; N], b: &[[i64; N]; N]) -> (r: [[i64; N]; N])
    requires
        mat_fits(mat_sum(cols(*a), cols(*b))),
    ensures
        cols(r) == mat_sum(cols(*a), cols(*b)),
{
    (nalgebra::SMatrix::<i64, N, N>::from(*a) + nalgebra::SMatrix::<i64, N, N>::from(*b)).into()
}

/// `-` on two matrices subtracts entry by entry.
#[verifier::external_body]
pub(crate) fn matrix_diff<const N: usize>(a: &[[i64; N]; N], b: &[[i64; N]; N]) -> (r: [
    [i64; N]; N
])
    requires
        mat_fits(mat_diff(cols(*a), cols(*b))),
    ensures
        cols(r) == mat_diff(cols(*a), cols(*b)),
{
    (nalgebra::SMatrix::<i64, N, N>::from(*a) - nalgebra::SMatrix::<i64, N, N>::from(*b)).into()
}

/// Unary `-` on a matrix negates every entry.
#[verifier::external_body]
pub(crate) fn matrix_neg<const N: usize>(a: &[[i64; N]; N]) -> (r: [[i64; N]; N])
    requires
        mat_fits(mat_neg(cols(*a))),
    ensures
        cols(r) == mat_neg(cols(*a)),
{
    (-nalgebra::SMatrix::<i64, N, N>::from(*a)).into()
}

/// A matrix `*` a scalar multiplies every entry by the scalar.
#[verifier::external_body]
pub(crate) fn matrix_scaled<const N: usize>(a: &[[i64; N]; N], k: i64) -> (r: [[i64; N]; N])
    requires
        mat_fits(mat_scaled(cols(*a), k as int)),
    ensures
        cols(r) == mat_scaled(cols(*a), k as int),
{
    (nalgebra::SMatrix::<i64, N, N>::from(*a) * k).into()
}

/// A matrix `/` a scalar divides every entry by the scalar, rounding toward
/// zero.
#[verifier::external_body]
pub(crate) fn matrix_quot<const N: usize>(a: &[[i64; N]; N], k: i64) -> (r: [[i64; N]; N])
    requires
        k != 0,
        mat_divisible(cols(*a), k as int),
    ensures
        cols(r) == mat_quot(cols(*a), k as int),
{
    (nalgebra::SMatrix::<i64, N, N>::from(*a) / k).into()
}

} // verus!
