use dual_ad::Value;
use std::cmp::Ordering;

fn var<const N: usize>(value: i64, index: usize) -> Value<N> {
    Value::<N>::new(value).active(index)
}

#[test]
fn constant_has_zero_derivatives() {
    let c = Value::<3>::new(7);
    assert_eq!(*c.value(), 7);
    assert_eq!(*c.grad(), [0, 0, 0]);
    assert_eq!(*c.hess(), [[0, 0, 0], [0, 0, 0], [0, 0, 0]]);
}

#[test]
fn new_const_matches_new() {
    let a = Value::<3>::new_const(-5);
    let b = Value::<3>::new(-5);
    assert_eq!(*a.value(), *b.value());
    assert_eq!(*a.grad(), *b.grad());
    assert_eq!(*a.hess(), *b.hess());
}

#[test]
fn dimension_zero_is_a_plain_scalar() {
    let a = Value::<0>::new(6);
    let b = Value::<0>::new(7);
    let p = a.mul(b);
    assert_eq!(*p.value(), 42);
    assert_eq!(p.grad().len(), 0);
    assert_eq!(p.hess().len(), 0);
}

#[test]
fn seeding_gives_the_basis_vector() {
    assert_eq!(*var::<3>(9, 0).grad(), [1, 0, 0]);
    assert_eq!(*var::<3>(9, 1).grad(), [0, 1, 0]);
    assert_eq!(*var::<3>(9, 2).grad(), [0, 0, 1]);
    let x = var::<3>(9, 1);
    assert_eq!(*x.value(), 9);
    assert_eq!(*x.hess(), [[0, 0, 0], [0, 0, 0], [0, 0, 0]]);
}

#[test]
fn seeding_keeps_other_entries() {
    let x = var::<2>(3, 0).chain(3, 5, 0).active(1);
    assert_eq!(*x.grad(), [5, 1]);
}

#[test]
fn product_plus_sum_of_two_variables() {
    let x = var::<2>(3, 0);
    let y = var::<2>(4, 1);
    let z = x.mul(y).add(x);
    assert_eq!(*z.value(), 15);
    assert_eq!(*z.grad(), [5, 3]);
    assert_eq!(*z.hess(), [[0, 1], [1, 0]]);
}

#[test]
fn small_quotient_rounds_toward_zero() {
    let a = var::<2>(2, 0);
    let b = var::<2>(4, 1);
    let c = a.div(b);
    // 2 / 4, 4 / 16 and -2 / 16 all round to zero in integers.
    assert_eq!(*c.value(), 0);
    assert_eq!(*c.grad(), [0, 0]);
}

#[test]
fn quotient_rule_exact() {
    let a = var::<2>(0, 0).chain(8, 16, 0);
    let b = var::<2>(0, 1).chain(2, 4, 0);
    assert_eq!(*a.grad(), [16, 0]);
    assert_eq!(*b.grad(), [0, 4]);
    let c = a.div(b);
    assert_eq!(*c.value(), 4);
    // (a'b - b'a) / b^2 = ([32, 0] - [0, 32]) / 4
    assert_eq!(*c.grad(), [8, -8]);
}

#[test]
fn square_of_one_variable() {
    let x = var::<1>(3, 0);
    let f = x.mul(x);
    assert_eq!(*f.value(), 9);
    assert_eq!(*f.grad(), [6]);
    assert_eq!(*f.hess(), [[2]]);
}

#[test]
fn cube_and_its_quotient() {
    let x = var::<1>(2, 0);
    let cube = x.mul(x).mul(x);
    assert_eq!(*cube.value(), 8);
    assert_eq!(*cube.grad(), [12]);
    assert_eq!(*cube.hess(), [[12]]);
    let square = cube.div(x);
    assert_eq!(*square.value(), 4);
    assert_eq!(*square.grad(), [4]);
    assert_eq!(*square.hess(), [[2]]);
}

#[test]
fn quotient_of_negative_values_truncates() {
    let a = var::<1>(-7, 0);
    let b = Value::<1>::new(2);
    let q = a.div(b);
    assert_eq!(*q.value(), -3);
    // (1 * 2 - 0 * -7) / 4 rounds to zero
    assert_eq!(*q.grad(), [0]);
    let a = var::<1>(-7, 0).chain(-7, -9, 0);
    let q = a.div(b);
    // (-9 * 2) / 4 = -18 / 4 rounds toward zero to -4
    assert_eq!(*q.grad(), [-4]);
}

#[test]
fn sum_adds_every_field() {
    let x = var::<2>(3, 0);
    let y = var::<2>(4, 1);
    let a = x.mul(x);
    let b = x.mul(y);
    let s = a.add(b);
    assert_eq!(*s.value(), 21);
    assert_eq!(*s.grad(), [10, 3]);
    assert_eq!(*s.hess(), [[2, 1], [1, 0]]);
}

#[test]
fn difference_subtracts_every_field() {
    let x = var::<2>(3, 0);
    let y = var::<2>(4, 1);
    let a = x.mul(x);
    let b = x.mul(y);
    let d = a.sub(b);
    assert_eq!(*d.value(), -3);
    assert_eq!(*d.grad(), [2, -3]);
    assert_eq!(*d.hess(), [[2, -1], [-1, 0]]);
}

#[test]
fn negation_negates_every_field() {
    let x = var::<2>(3, 0);
    let y = var::<2>(4, 1);
    let n = x.mul(y).add(x.mul(x)).neg();
    assert_eq!(*n.value(), -21);
    assert_eq!(*n.grad(), [-10, -3]);
    assert_eq!(*n.hess(), [[-2, -1], [-1, 0]]);
}

#[test]
fn remainder_keeps_the_derivatives_of_the_dividend() {
    let x = var::<2>(17, 0);
    let a = x.mul(x);
    let b = var::<2>(5, 1);
    let r = a.rem(b);
    assert_eq!(*r.value(), 289 % 5);
    assert_eq!(*r.grad(), *a.grad());
    assert_eq!(*r.hess(), *a.hess());
    let r = var::<2>(-17, 0).rem(b);
    assert_eq!(*r.value(), -2);
    assert_eq!(*r.grad(), [1, 0]);
}

#[test]
fn product_rule_on_samples() {
    let samples = [(3i64, 5i64), (-2, 7), (0, 4), (11, -13)];
    for (u, v) in samples {
        let a = var::<2>(u, 0).chain(u, 3, 1);
        let b = var::<2>(v, 1).chain(v, -2, 4);
        let p = a.mul(b);
        assert_eq!(*p.value(), u * v);
        for i in 0..2 {
            assert_eq!(p.grad()[i], a.grad()[i] * v + b.grad()[i] * u);
        }
    }
}

#[test]
fn linearity_on_samples() {
    let a = var::<2>(3, 0).mul(var::<2>(4, 1));
    let b = var::<2>(5, 1).mul(var::<2>(5, 1));
    let s = a.add(b);
    for i in 0..2 {
        assert_eq!(s.grad()[i], a.grad()[i] + b.grad()[i]);
    }
    let c = Value::<2>::new(7);
    let scaled = c.mul(a);
    for i in 0..2 {
        assert_eq!(scaled.grad()[i], 7 * a.grad()[i]);
    }
}

#[test]
fn identity_laws_on_samples() {
    let x = var::<2>(3, 0);
    let y = var::<2>(4, 1);
    let a = x.mul(y).add(x.mul(x));
    let s = a.add(Value::<2>::zero());
    assert_eq!(*s.value(), *a.value());
    assert_eq!(*s.grad(), *a.grad());
    assert_eq!(*s.hess(), *a.hess());
    let p = a.mul(Value::<2>::one());
    assert_eq!(*p.value(), *a.value());
    assert_eq!(*p.grad(), *a.grad());
    assert_eq!(*p.hess(), *a.hess());
}

#[test]
fn hessian_stays_symmetric() {
    let x = var::<3>(2, 0);
    let y = var::<3>(3, 1);
    let z = var::<3>(5, 2);
    let f = x.mul(y).mul(z).add(x.mul(x)).sub(y.mul(z)).div(x).chain(1, 3, 2).neg();
    let h = f.hess();
    for i in 0..3 {
        for j in 0..3 {
            assert_eq!(h[i][j], h[j][i]);
        }
    }
    assert_eq!(*x.mul(y).mul(z).hess(), [[0, 5, 3], [5, 0, 2], [3, 2, 0]]);
}

#[test]
fn chain_rule_matches_the_square() {
    let x = var::<2>(3, 0);
    let by_chain = x.chain(9, 6, 2);
    let by_product = x.mul(x);
    assert_eq!(*by_chain.value(), 9);
    assert_eq!(*by_chain.grad(), [6, 0]);
    assert_eq!(*by_chain.hess(), [[2, 0], [0, 0]]);
    assert_eq!(*by_chain.value(), *by_product.value());
    assert_eq!(*by_chain.grad(), *by_product.grad());
    assert_eq!(*by_chain.hess(), *by_product.hess());
}

#[test]
fn chain_rule_scales_the_inner_hessian() {
    let x = var::<2>(3, 0);
    let y = var::<2>(4, 1);
    let inner = x.mul(y);
    // f(u) = u^2 at u = 12: f = 144, f' = 24, f'' = 2
    let outer = inner.chain(144, 24, 2);
    assert_eq!(*outer.value(), 144);
    assert_eq!(*outer.grad(), [96, 72]);
    // [4, 3] (x) [4, 3] * 2 + [[0, 1], [1, 0]] * 24
    assert_eq!(*outer.hess(), [[32, 48], [48, 18]]);
    let direct = inner.mul(inner);
    assert_eq!(*direct.hess(), *outer.hess());
}

#[test]
fn compound_assignment_matches_the_operators() {
    let x = var::<2>(6, 0);
    let y = var::<2>(3, 1);
    let mut a = x;
    a.add_assign(y);
    assert_eq!(*a.value(), 9);
    assert_eq!(*a.grad(), [1, 1]);
    let mut s = x;
    s.sub_assign(y);
    assert_eq!(*s.value(), 3);
    assert_eq!(*s.grad(), [1, -1]);
    let mut m = x;
    m.mul_assign(y);
    assert_eq!(*m.value(), *x.mul(y).value());
    assert_eq!(*m.grad(), [3, 6]);
    assert_eq!(*m.hess(), [[0, 1], [1, 0]]);
    let mut d = x.mul(y);
    d.div_assign(y);
    assert_eq!(*d.value(), 6);
    assert_eq!(*d.grad(), *x.mul(y).div(y).grad());
    assert_eq!(*d.hess(), *x.mul(y).div(y).hess());
    let mut r = x;
    r.rem_assign(Value::<2>::new(4));
    assert_eq!(*r.value(), 2);
    assert_eq!(*r.grad(), [1, 0]);
}

#[test]
fn self_product_in_place() {
    let mut x = var::<1>(5, 0);
    let copy = x;
    x.mul_assign(copy);
    assert_eq!(*x.value(), 25);
    assert_eq!(*x.grad(), [10]);
    assert_eq!(*x.hess(), [[2]]);
}

#[test]
fn zero_and_one() {
    let z = Value::<2>::zero();
    assert_eq!(*z.value(), 0);
    assert_eq!(*z.grad(), [0, 0]);
    assert_eq!(*z.hess(), [[0, 0], [0, 0]]);
    let o = Value::<2>::one();
    assert_eq!(*o.value(), 1);
    assert_eq!(*o.grad(), [0, 0]);
    assert_eq!(*o.hess(), [[0, 0], [0, 0]]);
}

#[test]
fn is_zero_looks_at_every_entry() {
    assert!(Value::<2>::zero().is_zero());
    assert!(Value::<2>::new(0).is_zero());
    assert!(Value::<0>::new(0).is_zero());
    assert!(!Value::<2>::new(1).is_zero());
    // zero value, nonzero gradient
    assert!(!var::<2>(0, 1).is_zero());
    // zero value and gradient, nonzero Hessian
    let x = var::<2>(0, 1);
    let square = x.mul(x);
    assert_eq!(*square.value(), 0);
    assert_eq!(*square.grad(), [0, 0]);
    assert_eq!(*square.hess(), [[0, 0], [0, 2]]);
    assert!(!square.is_zero());
}

#[test]
fn inverse_follows_the_quotient_rule() {
    let x = var::<1>(1, 0);
    let r = x.inv();
    assert_eq!(*r.value(), 1);
    assert_eq!(*r.grad(), [-1]);
    assert_eq!(*r.hess(), [[2]]);
    let x = var::<1>(-1, 0);
    let r = x.inv();
    assert_eq!(*r.value(), -1);
    assert_eq!(*r.grad(), [-1]);
    assert_eq!(*r.hess(), [[-2]]);
    let r = var::<1>(2, 0).inv();
    assert_eq!(*r.value(), 0);
    assert_eq!(*r.grad(), [0]);
    assert_eq!(*r.hess(), [[0]]);
}

#[test]
fn abs_negates_the_whole_dual() {
    let x = var::<2>(-3, 0);
    let f = x.mul(x).mul(x);
    assert_eq!(*f.value(), -27);
    let a = f.abs();
    assert_eq!(*a.value(), 27);
    assert_eq!(*a.grad(), [-27, 0]);
    assert_eq!(*a.hess(), [[18, 0], [0, 0]]);
    let p = var::<2>(3, 0);
    let a = p.abs();
    assert_eq!(*a.value(), 3);
    assert_eq!(*a.grad(), [1, 0]);
    let z = var::<2>(0, 0).abs();
    assert_eq!(*z.value(), 0);
    assert_eq!(*z.grad(), [1, 0]);
}

#[test]
fn abs_sub_is_the_positive_difference() {
    let a = var::<2>(5, 0);
    let b = var::<2>(3, 1);
    let d = a.abs_sub(&b);
    assert_eq!(*d.value(), 2);
    assert_eq!(*d.grad(), [1, -1]);
    let d = b.abs_sub(&a);
    assert_eq!(*d.value(), 0);
    assert_eq!(*d.grad(), [0, 0]);
    let d = a.abs_sub(&a);
    assert_eq!(*d.value(), 0);
    assert_eq!(*d.grad(), [0, 0]);
}

#[test]
fn signum_is_a_constant() {
    let s = var::<2>(-7, 0).signum();
    assert_eq!(*s.value(), -1);
    assert_eq!(*s.grad(), [0, 0]);
    assert_eq!(*s.hess(), [[0, 0], [0, 0]]);
    assert_eq!(*var::<2>(0, 0).signum().value(), 0);
    assert_eq!(*var::<2>(12, 0).signum().value(), 1);
}

#[test]
fn sign_predicates_look_at_the_value() {
    let n = var::<2>(-1, 0);
    let z = var::<2>(0, 0);
    let p = var::<2>(1, 0);
    assert!(n.is_negative() && !n.is_positive());
    assert!(!z.is_negative() && !z.is_positive());
    assert!(!p.is_negative() && p.is_positive());
}

#[test]
fn parsing_reads_the_value_only() {
    let v = Value::<2>::from_str_radix("42", 10).unwrap();
    assert_eq!(*v.value(), 42);
    assert_eq!(*v.grad(), [0, 0]);
    assert_eq!(*v.hess(), [[0, 0], [0, 0]]);
    assert_eq!(*Value::<2>::from_str_radix("ff", 16).unwrap().value(), 255);
    assert_eq!(*Value::<2>::from_str_radix("-101", 2).unwrap().value(), -5);
    assert_eq!(*Value::<2>::from_str_radix("+z", 36).unwrap().value(), 35);
}

#[test]
fn parse_errors_come_back_unchanged() {
    let expected = i64::from_str_radix("12x", 10).unwrap_err();
    assert_eq!(Value::<2>::from_str_radix("12x", 10).unwrap_err(), expected);
    let expected = i64::from_str_radix("", 10).unwrap_err();
    assert_eq!(Value::<2>::from_str_radix("", 10).unwrap_err(), expected);
    let expected = i64::from_str_radix("9223372036854775808", 10).unwrap_err();
    assert_eq!(Value::<2>::from_str_radix("9223372036854775808", 10).unwrap_err(), expected);
    let expected = i64::from_str_radix("2", 2).unwrap_err();
    assert_eq!(Value::<2>::from_parsed(Err(expected.clone())).unwrap_err(), expected);
    assert_eq!(*Value::<2>::from_parsed(Ok(-9)).unwrap().value(), -9);
}

#[test]
fn equality_ignores_derivatives() {
    let a = var::<2>(3, 0);
    let b = var::<2>(3, 1).mul(Value::<2>::one());
    let c = Value::<2>::new(3);
    assert!(a == b);
    assert!(a == c);
    assert!(!(a != b));
    assert!(a != var::<2>(4, 0));
    assert_eq!(a.partial_cmp(&b), Some(Ordering::Equal));
    assert_eq!(a.cmp(&c), Ordering::Equal);
    assert!(!(a < b) && !(a > b) && a <= b && a >= b);
}

#[test]
fn ordering_follows_the_value() {
    let a = var::<2>(-3, 0);
    let b = var::<2>(5, 0);
    assert!(a < b);
    assert!(b > a);
    assert_eq!(a.partial_cmp(&b), Some(Ordering::Less));
    assert_eq!(b.partial_cmp(&a), Some(Ordering::Greater));
    assert_eq!(a.cmp(&b), Ordering::Less);
    assert_eq!(b.cmp(&a), Ordering::Greater);
}

#[test]
fn approximate_equality_looks_at_the_value() {
    let a = var::<2>(10, 0);
    let b = var::<2>(13, 1);
    assert_eq!(Value::<2>::default_epsilon(), 0);
    assert!(!a.abs_diff_eq(&b, 2));
    assert!(a.abs_diff_eq(&b, 3));
    assert!(b.abs_diff_eq(&a, 3));
    assert!(!b.abs_diff_eq(&a, 0));
    assert!(a.abs_diff_eq(&Value::<2>::new(10), Value::<2>::default_epsilon()));
}

#[test]
fn extreme_values_in_range() {
    let a = Value::<1>::new(i64::MAX);
    let b = Value::<1>::new(i64::MIN);
    assert_eq!(*a.add(b).value(), -1);
    assert_eq!(*a.neg().value(), i64::MIN + 1);
    assert_eq!(*b.div(Value::<1>::new(1)).value(), i64::MIN);
    assert_eq!(*b.rem(Value::<1>::new(2)).value(), 0);
    assert_eq!(*a.rem(Value::<1>::new(-2)).value(), 1);
}

#[test]
fn chain_rule_matches_central_differences() {
    // f(u) = 3u^2 + 2u + 1, for which the central difference is exact.
    fn f(u: i64) -> i64 {
        3 * u * u + 2 * u + 1
    }
    for x in [-4i64, -1, 0, 2, 9] {
        let seed = var::<1>(x, 0);
        let y = seed.chain(f(x), 6 * x + 2, 6);
        assert_eq!(*y.value(), f(x));
        assert_eq!(y.grad()[0], (f(x + 1) - f(x - 1)) / 2);
        assert_eq!(y.hess()[0][0], f(x + 1) - 2 * f(x) + f(x - 1));
    }
}

#[test]
fn division_undoes_multiplication() {
    let x = var::<2>(3, 0);
    let y = var::<2>(-4, 1);
    let a = x.mul(x).add(y);
    let b = x.mul(y).sub(x);
    let back = a.mul(b).div(b);
    assert_eq!(*back.value(), *a.value());
    assert_eq!(*back.grad(), *a.grad());
    assert_eq!(*back.hess(), *a.hess());
}

#[test]
fn product_commutes() {
    let x = var::<2>(3, 0);
    let y = var::<2>(-4, 1);
    let a = x.mul(x).add(y);
    let b = x.mul(y).sub(x);
    let l = a.mul(b);
    let r = b.mul(a);
    assert_eq!(*l.value(), *r.value());
    assert_eq!(*l.grad(), *r.grad());
    assert_eq!(*l.hess(), *r.hess());
}
