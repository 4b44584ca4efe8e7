use amcl::gcd::compute_gcd;
use amcl::Rational;

fn make(n: i64, d: i64) -> Rational {
    Rational::new(n, d).unwrap()
}

#[test]
fn gcd_of_small_numbers() {
    assert_eq!(compute_gcd(12, 18), 6);
    assert_eq!(compute_gcd(18, 12), 6);
    assert_eq!(compute_gcd(17, 5), 1);
    assert_eq!(compute_gcd(0, 9), 9);
    assert_eq!(compute_gcd(9, 0), 9);
    assert_eq!(compute_gcd(0, 0), 0);
    assert_eq!(compute_gcd(u128::MAX, u128::MAX), u128::MAX);
    assert_eq!(compute_gcd(1 << 100, 1 << 90), 1 << 90);
}

#[test]
fn new_brings_to_lowest_terms() {
    let r = make(6, 4);
    assert_eq!(r.numer(), 3);
    assert_eq!(r.denom(), 2);
    let r = make(2, -4);
    assert_eq!(r.numer(), -1);
    assert_eq!(r.denom(), 2);
    let r = make(-2, -4);
    assert_eq!(r.numer(), 1);
    assert_eq!(r.denom(), 2);
    let r = make(0, -7);
    assert_eq!(r.numer(), 0);
    assert_eq!(r.denom(), 1);
    assert_eq!(make(10, 5), Rational::from_int(2));
}

#[test]
fn new_refuses_zero_denominator() {
    assert_eq!(Rational::new(1, 0), None);
    assert_eq!(Rational::new(0, 0), None);
}

#[test]
fn new_at_the_limits() {
    assert_eq!(Rational::new(i64::MIN, -1), None);
    assert_eq!(Rational::new(1, i64::MIN), None);
    let r = make(i64::MIN, 1);
    assert_eq!(r.numer(), i64::MIN);
    assert_eq!(r.denom(), 1);
    let r = make(i64::MIN, i64::MIN);
    assert_eq!(r, Rational::from_int(1));
    let r = make(2, i64::MIN);
    assert_eq!(r.numer(), -1);
    assert_eq!(r.denom(), 1 << 62);
    let r = make(i64::MAX, i64::MAX);
    assert_eq!(r, Rational::from_int(1));
    let r = make(i64::MIN, 2);
    assert_eq!(r, Rational::from_int(-(1 << 62)));
}

#[test]
fn from_int_has_denominator_one() {
    let r = Rational::from_int(-9);
    assert_eq!(r.numer(), -9);
    assert_eq!(r.denom(), 1);
    assert_eq!(Rational::from_int(0), make(0, 5));
}

#[test]
fn sums_and_differences_are_exact() {
    assert_eq!(make(1, 3).checked_add(make(1, 6)), Some(make(1, 2)));
    assert_eq!(make(1, 3).checked_sub(make(1, 6)), Some(make(1, 6)));
    assert_eq!(make(1, 2).checked_add(make(-1, 2)), Some(Rational::from_int(0)));
    assert_eq!(make(-3, 4).checked_sub(make(5, 6)), Some(make(-19, 12)));
    assert_eq!(
        Rational::from_int(i64::MAX).checked_add(Rational::from_int(i64::MIN)),
        Some(Rational::from_int(-1))
    );
}

#[test]
fn products_and_quotients_are_exact() {
    assert_eq!(make(2, 3).checked_mul(make(9, 4)), Some(make(3, 2)));
    assert_eq!(make(-2, 3).checked_mul(make(9, 4)), Some(make(-3, 2)));
    assert_eq!(make(2, 3).checked_div(make(4, 9)), Some(make(3, 2)));
    assert_eq!(make(2, 3).checked_div(make(-4, 9)), Some(make(-3, 2)));
    assert_eq!(make(-2, 3).checked_div(make(-4, 9)), Some(make(3, 2)));
    assert_eq!(Rational::from_int(0).checked_div(make(-4, 9)), Some(Rational::from_int(0)));
    assert_eq!(
        Rational::from_int(i64::MIN).checked_div(Rational::from_int(i64::MIN)),
        Some(Rational::from_int(1))
    );
    assert_eq!(
        Rational::from_int(i64::MIN).checked_mul(make(1, 2)),
        Some(Rational::from_int(-(1 << 62)))
    );
}

#[test]
fn division_by_zero_is_none() {
    assert_eq!(make(2, 3).checked_div(Rational::from_int(0)), None);
    assert_eq!(Rational::from_int(0).checked_div(Rational::from_int(0)), None);
}

#[test]
fn results_without_representation_are_none() {
    let max = Rational::from_int(i64::MAX);
    let min = Rational::from_int(i64::MIN);
    assert_eq!(max.checked_add(Rational::from_int(1)), None);
    assert_eq!(min.checked_sub(Rational::from_int(1)), None);
    assert_eq!(max.checked_mul(Rational::from_int(2)), None);
    assert_eq!(min.checked_mul(Rational::from_int(-1)), None);
    assert_eq!(min.checked_div(Rational::from_int(-1)), None);
    assert_eq!(make(1, i64::MAX).checked_div(Rational::from_int(2)), None);
    assert_eq!(make(1, i64::MAX).checked_add(make(1, i64::MAX - 1)), None);
    assert_eq!(Rational::from_int(1).checked_div(min), None);
}

#[test]
fn results_at_the_edge_of_representation() {
    let max = Rational::from_int(i64::MAX);
    let min = Rational::from_int(i64::MIN);
    assert_eq!(max.checked_sub(Rational::from_int(1)), Some(Rational::from_int(i64::MAX - 1)));
    assert_eq!(min.checked_add(Rational::from_int(1)), Some(Rational::from_int(i64::MIN + 1)));
    assert_eq!(
        Rational::from_int(-(1 << 62)).checked_mul(Rational::from_int(2)),
        Some(min)
    );
    assert_eq!(Rational::from_int(1).checked_div(max), Some(make(1, i64::MAX)));
    assert_eq!(
        make(1, i64::MAX).checked_add(make(1, i64::MAX)),
        Some(make(2, i64::MAX))
    );
}

#[test]
fn order_follows_value() {
    assert!(make(1, 3).lt(make(1, 2)));
    assert!(!make(1, 2).lt(make(1, 3)));
    assert!(!make(1, 2).lt(make(2, 4)));
    assert!(make(1, 2).le(make(2, 4)));
    assert!(make(-1, 2).lt(make(-1, 3)));
    assert!(make(-1, 2).le(make(1, i64::MAX)));
    assert!(!make(1, i64::MAX).le(make(-1, 2)));
    assert!(Rational::from_int(i64::MIN).lt(Rational::from_int(i64::MAX)));
    assert!(make(i64::MAX - 1, i64::MAX).lt(Rational::from_int(1)));
    assert!(make(i64::MAX - 2, i64::MAX - 1).lt(make(i64::MAX - 1, i64::MAX)));
}

#[test]
fn sign_test() {
    assert!(make(1, i64::MAX).is_positive());
    assert!(!Rational::from_int(0).is_positive());
    assert!(!make(-1, i64::MAX).is_positive());
    assert!(make(-3, -4).is_positive());
}

#[test]
fn equal_values_compare_equal() {
    assert_eq!(make(2, 4), make(1, 2));
    assert_eq!(make(-2, 4), make(1, -2));
    assert_ne!(make(1, 2), make(1, 3));
    assert_eq!(make(3, 9).checked_add(make(4, 6)), Some(Rational::from_int(1)));
}
