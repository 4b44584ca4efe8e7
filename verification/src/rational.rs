//! Exact rational numbers in lowest terms.
//!
//! The view of a [`Rational`] is the real number it stands for. Every
//! operation either returns the exact result or reports that no numerator and
//! denominator of 64 bits hold it.
use vstd::prelude::*;
use crate::gcd::{abs, compute_gcd, gcd, lemma_gcd_divides, lemma_gcd_positive,
    lemma_lowest_terms_least, lemma_quotients_coprime};

verus! {

/// The real number `n / d`.
pub open spec fn ratio(n: int, d: int) -> real {
    n as real / d as real
}

/// Whether `n` and `d` can be the numerator and denominator of a [`Rational`].
pub open spec fn fits(n: int, d: int) -> bool {
    i64::MIN <= n <= i64::MAX && 0 < d <= i64::MAX
}

/// Whether some [`Rational`] stands for the real number `x`.
pub open spec fn representable(x: real) -> bool {
    exists|n: int, d: int| fits(n, d) && x == #[trigger] ratio(n, d)
}

/// Whether `n / d` is the real number `x` written in lowest terms: `d` is
/// positive and shares no divisor with `n`.
pub open spec fn lowest_terms(x: real, n: int, d: int) -> bool {
    d > 0 && gcd(abs(n), d as nat) == 1 && x == ratio(n, d)
}

/// The integer of magnitude `n` that is negative where `negative` is set.
pub open spec fn signed(negative: bool, n: int) -> int {
    if negative {
        -n
    } else {
        n
    }
}

/// Two fractions are equal exactly where their cross products are.
pub proof fn lemma_ratio_eq(n: int, d: int, p: int, q: int) by (nonlinear_arith)
    requires
        d > 0,
        q > 0,
    ensures
        ratio(n, d) == ratio(p, q) <==> n * q == p * d,
{
}

/// Two fractions are ordered as their cross products are.
pub proof fn lemma_ratio_lt(n: int, d: int, p: int, q: int) by (nonlinear_arith)
    requires
        d > 0,
        q > 0,
    ensures
        ratio(n, d) < ratio(p, q) <==> n * q < p * d,
        ratio(n, d) <= ratio(p, q) <==> n * q <= p * d,
{
}

/// A fraction has the sign of its numerator.
pub proof fn lemma_ratio_sign(n: int, d: int) by (nonlinear_arith)
    requires
        d > 0,
    ensures
        ratio(n, d) > 0real <==> n > 0,
        ratio(n, d) == 0real <==> n == 0,
{
}

/// A common factor of numerator and denominator cancels.
pub proof fn lemma_ratio_scale(n: int, d: int, k: int) by (nonlinear_arith)
    requires
        d != 0,
        k != 0,
    ensures
        ratio(k * n, k * d) == ratio(n, d),
{
}

/// The sum of two fractions, over the product of the denominators.
pub proof fn lemma_ratio_add(n: int, d: int, p: int, q: int) by (nonlinear_arith)
    requires
        d > 0,
        q > 0,
    ensures
        ratio(n, d) + ratio(p, q) == ratio(n * q + p * d, d * q),
        ratio(n, d) - ratio(p, q) == ratio(n * q - p * d, d * q),
{
}

/// The product of two fractions.
pub proof fn lemma_ratio_mul(n: int, d: int, p: int, q: int) by (nonlinear_arith)
    requires
        d > 0,
        q > 0,
    ensures
        ratio(n, d) * ratio(p, q) == ratio(n * p, d * q),
{
}

/// The quotient of two fractions, the second of which is not zero.
pub proof fn lemma_ratio_div(n: int, d: int, p: int, q: int) by (nonlinear_arith)
    requires
        d > 0,
        q > 0,
        p != 0,
    ensures
        ratio(n, d) / ratio(p, q) == ratio(n * q * signed(p < 0, 1), d * abs(p)),
{
}

/// A fraction in lowest terms fits wherever any fraction of its value does.
pub proof fn lemma_lowest_terms_fit(p: int, q: int)
    requires
        q > 0,
        gcd(abs(p), q as nat) == 1,
        representable(ratio(p, q)),
    ensures
        fits(p, q),
{
    let (n, d) = choose|n: int, d: int| fits(n, d) && ratio(p, q) == #[trigger] ratio(n, d);
    lemma_ratio_eq(n, d, p, q);
    let k: int = lemma_lowest_terms_least(n, d, p, q);
    assert(q <= d && (p >= 0 ==> p <= n) && (p < 0 ==> n <= p)) by (nonlinear_arith)
        requires
            k > 0,
            n == k * p,
            d == k * q,
            q > 0,
    ;
}

/// A real number is written in lowest terms in one way only.
pub proof fn lemma_lowest_terms_unique(x: real, n: int, d: int, p: int, q: int)
    requires
        lowest_terms(x, n, d),
        lowest_terms(x, p, q),
    ensures
        n == p,
        d == q,
{
    lemma_ratio_eq(n, d, p, q);
    let k: int = lemma_lowest_terms_least(n, d, p, q);
    let j: int = lemma_lowest_terms_least(p, q, n, d);
    assert(k == 1) by (nonlinear_arith)
        requires
            k > 0,
            j > 0,
            d > 0,
            d == k * q,
            q == j * d,
    ;
    assert(n == p && d == q) by (nonlinear_arith)
        requires
            k == 1,
            n == k * p,
            d == k * q,
    ;
}

/// An exact rational number: a numerator and a positive denominator with no
/// common divisor, so that every value has one representation.
#[derive(Clone, Copy, Debug, PartialEq, Eq)]
pub struct Rational {
    num: i64,
    den: i64,
}

impl View for Rational {
    type V = real;

    closed spec fn view(&self) -> real {
        ratio(self.num as int, self.den as int)
    }
}

impl Rational {
    /// The denominator is positive and the fraction is in lowest terms.
    #[verifier::type_invariant]
    pub closed spec fn wf(self) -> bool {
        self.den > 0 && gcd(abs(self.num as int), self.den as nat) == 1
    }

    /// The numerator of the value written in lowest terms.
    pub closed spec fn spec_numer(self) -> int {
        self.num as int
    }

    /// The denominator of the value written in lowest terms.
    pub closed spec fn spec_denom(self) -> int {
        self.den as int
    }

    /// Brings `n / d`, negated where `negative` is set, to lowest terms.
    /// `None` exactly where the value has no representation.
    fn reduce(negative: bool, n: u128, d: u128) -> (r: Option<Rational>)
        requires
            d > 0,
        ensures
            r is Some <==> representable(ratio(signed(negative, n as int), d as int)),
            r is Some ==> r.unwrap()@ == ratio(signed(negative, n as int), d as int),
    {
        let g: u128 = compute_gcd(n, d);
        proof {
            lemma_gcd_positive(n as nat, d as nat);
        }
        let s: u128 = n / g;
        let t: u128 = d / g;
        let ghost p: int = signed(negative, s as int);
        proof {
            let c = lemma_gcd_divides(n as nat, d as nat);
            assert(s == c.0 && t == c.1) by (nonlinear_arith)
                requires
                    n == g * c.0,
                    d == g * c.1,
                    g > 0,
                    s == n / g,
                    t == d / g,
            ;
            lemma_quotients_coprime(n as nat, d as nat, g as nat, s as nat, t as nat);
            assert(t > 0) by (nonlinear_arith)
                requires
                    d == g * t,
                    d > 0,
                    g > 0,
            ;
            assert(signed(negative, n as int) == g * p) by (nonlinear_arith)
                requires
                    n == g * s,
                    p == signed(negative, s as int),
            ;
            lemma_ratio_scale(p, t as int, g as int);
            assert(abs(p) == s);
            if representable(ratio(p, t as int)) {
                lemma_lowest_terms_fit(p, t as int);
            }
        }
        let limit: u128 = 0x7fff_ffff_ffff_ffff;
        if t > limit {
            return None;
        }
        let num: i64 = if negative {
            if s > limit + 1 {
                return None;
            } else if s == limit + 1 {
                i64::MIN
            } else {
                -(s as i64)
            }
        } else {
            if s > limit {
                return None;
            }
            s as i64
        };
        let r = Rational { num, den: t as i64 };
        assert(fits(p, t as int) && r@ == ratio(p, t as int));
        Some(r)
    }

    /// The rational number equal to the integer `n`.
    pub fn from_int(n: i64) -> (r: Rational)
        ensures
            r@ == n as real,
    {
        proof {
            reveal_with_fuel(gcd, 3);
            lemma_ratio_whole(n as int);
        }
        Rational { num: n, den: 1 }
    }

    /// The rational number `num / den`. `None` where `den` is zero or the
    /// value has no representation.
    pub fn new(num: i64, den: i64) -> (r: Option<Rational>)
        ensures
            r is Some <==> den != 0 && representable(ratio(num as int, den as int)),
            r is Some ==> r.unwrap()@ == ratio(num as int, den as int),
    {
        if den == 0 {
            return None;
        }
        let negative: bool = (num < 0) != (den < 0);
        let n: u128 = magnitude(num as i128);
        let d: u128 = magnitude(den as i128);
        proof {
            lemma_ratio_scale(num as int, den as int, -1);
        }
        Rational::reduce(negative, n, d)
    }

    /// The numerator of the value written in lowest terms.
    pub fn numer(self) -> (n: i64)
        ensures
            n == self.spec_numer(),
            lowest_terms(self@, n as int, self.spec_denom()),
    {
        proof {
            use_type_invariant(&self);
        }
        self.num
    }

    /// The denominator of the value written in lowest terms.
    pub fn denom(self) -> (d: i64)
        ensures
            d == self.spec_denom(),
            lowest_terms(self@, self.spec_numer(), d as int),
    {
        proof {
            use_type_invariant(&self);
        }
        self.den
    }

    /// A well-formed rational is its value written in lowest terms, so the
    /// value has a representation.
    pub proof fn lemma_lowest_terms(self)
        requires
            self.wf(),
        ensures
            lowest_terms(self@, self.spec_numer(), self.spec_denom()),
            fits(self.spec_numer(), self.spec_denom()),
            representable(self@),
    {
    }

    /// Two rationals that stand for the same real number are the same
    /// fraction: `==` on rationals is equality of values.
    pub proof fn lemma_value_determines(self, other: Rational)
        requires
            self.wf(),
            other.wf(),
            self@ == other@,
        ensures
            self == other,
    {
        lemma_lowest_terms_unique(
            self@,
            self.num as int,
            self.den as int,
            other.num as int,
            other.den as int,
        );
    }

    /// The sum, or `None` where it has no representation.
    pub fn checked_add(self, other: Rational) -> (r: Option<Rational>)
        ensures
            r is Some <==> representable(self@ + other@),
            r is Some ==> r.unwrap()@ == self@ + other@,
    {
        proof {
            use_type_invariant(&self);
            use_type_invariant(&other);
            lemma_ratio_add(self.num as int, self.den as int, other.num as int, other.den as int);
            lemma_product_bounds(self.num as int, other.den as int);
            lemma_product_bounds(other.num as int, self.den as int);
            lemma_product_bounds(self.den as int, other.den as int);
        }
        let top: i128 = (self.num as i128) * (other.den as i128) + (other.num as i128) * (
        self.den as i128);
        let bottom: i128 = (self.den as i128) * (other.den as i128);
        Rational::reduce(top < 0, magnitude(top), magnitude(bottom))
    }

    /// The difference, or `None` where it has no representation.
    pub fn checked_sub(self, other: Rational) -> (r: Option<Rational>)
        ensures
            r is Some <==> representable(self@ - other@),
            r is Some ==> r.unwrap()@ == self@ - other@,
    {
        proof {
            use_type_invariant(&self);
            use_type_invariant(&other);
            lemma_ratio_add(self.num as int, self.den as int, other.num as int, other.den as int);
            lemma_product_bounds(self.num as int, other.den as int);
            lemma_product_bounds(other.num as int, self.den as int);
            lemma_product_bounds(self.den as int, other.den as int);
        }
        let top: i128 = (self.num as i128) * (other.den as i128) - (other.num as i128) * (
        self.den as i128);
        let bottom: i128 = (self.den as i128) * (other.den as i128);
        Rational::reduce(top < 0, magnitude(top), magnitude(bottom))
    }

    /// The product, or `None` where it has no representation.
    pub fn checked_mul(self, other: Rational) -> (r: Option<Rational>)
        ensures
            r is Some <==> representable(self@ * other@),
            r is Some ==> r.unwrap()@ == self@ * other@,
    {
        proof {
            use_type_invariant(&self);
            use_type_invariant(&other);
            lemma_ratio_mul(self.num as int, self.den as int, other.num as int, other.den as int);
            lemma_product_bounds(self.num as int, other.num as int);
            lemma_product_bounds(self.den as int, other.den as int);
        }
        let top: i128 = (self.num as i128) * (other.num as i128);
        let bottom: i128 = (self.den as i128) * (other.den as i128);
        Rational::reduce(top < 0, magnitude(top), magnitude(bottom))
    }

    /// The quotient, or `None` where `other` is zero or the quotient has no
    /// representation.
    pub fn checked_div(self, other: Rational) -> (r: Option<Rational>)
        ensures
            r is Some <==> other@ != 0real && representable(self@ / other@),
            r is Some ==> r.unwrap()@ == self@ / other@,
    {
        proof {
            use_type_invariant(&self);
            use_type_invariant(&other);
            lemma_ratio_sign(other.num as int, other.den as int);
            lemma_product_bounds(self.num as int, other.den as int);
            lemma_product_bounds(self.den as int, other.num as int);
        }
        if other.num == 0 {
            return None;
        }
        let top: i128 = (self.num as i128) * (other.den as i128);
        let bottom: i128 = (self.den as i128) * (other.num as i128);
        proof {
            lemma_ratio_div(self.num as int, self.den as int, other.num as int, other.den as int);
            assert(signed((top < 0) != (bottom < 0), abs(top as int) as int) == self.num
                * other.den * signed(other.num < 0, 1) && abs(bottom as int) == self.den * abs(
                other.num as int)) by (nonlinear_arith)
                requires
                    top == self.num * other.den,
                    bottom == self.den * other.num,
                    self.den > 0,
                    other.num != 0,
            ;
        }
        Rational::reduce((top < 0) != (bottom < 0), magnitude(top), magnitude(bottom))
    }

    /// Whether `self` is less than `other`.
    pub fn lt(self, other: Rational) -> (r: bool)
        ensures
            r == (self@ < other@),
    {
        proof {
            use_type_invariant(&self);
            use_type_invariant(&other);
            lemma_ratio_lt(self.num as int, self.den as int, other.num as int, other.den as int);
            lemma_product_bounds(self.num as int, other.den as int);
            lemma_product_bounds(other.num as int, self.den as int);
        }
        (self.num as i128) * (other.den as i128) < (other.num as i128) * (self.den as i128)
    }

    /// Whether `self` is less than or equal to `other`.
    pub fn le(self, other: Rational) -> (r: bool)
        ensures
            r == (self@ <= other@),
    {
        proof {
            use_type_invariant(&self);
            use_type_invariant(&other);
            lemma_ratio_lt(self.num as int, self.den as int, other.num as int, other.den as int);
            lemma_product_bounds(self.num as int, other.den as int);
            lemma_product_bounds(other.num as int, self.den as int);
        }
        (self.num as i128) * (other.den as i128) <= (other.num as i128) * (self.den as i128)
    }

    /// Whether `self` is greater than zero.
    pub fn is_positive(self) -> (r: bool)
        ensures
            r == (self@ > 0real),
    {
        proof {
            use_type_invariant(&self);
            lemma_ratio_sign(self.num as int, self.den as int);
        }
        self.num > 0
    }
}

/// The magnitude of `n`.
fn magnitude(n: i128) -> (m: u128)
    requires
        n > i128::MIN,
    ensures
        m == abs(n as int),
{
    if n < 0 {
        (-n) as u128
    } else {
        n as u128
    }
}

/// The product of two 64-bit integers lies within 2^126 of zero, and closer
/// where the second is positive, so that two such products can be added. It is
/// zero only where one of them is.
proof fn lemma_product_bounds(a: int, b: int) by (nonlinear_arith)
    requires
        i64::MIN <= a <= i64::MAX,
        i64::MIN <= b <= i64::MAX,
    ensures
        -0x4000_0000_0000_0000_0000_0000_0000_0000 <= a * b
            <= 0x4000_0000_0000_0000_0000_0000_0000_0000,
        b > 0 ==> -0x3fff_ffff_ffff_ffff_8000_0000_0000_0000 <= a * b
            <= 0x3fff_ffff_ffff_ffff_8000_0000_0000_0000,
        a > 0 && b > 0 ==> a * b > 0,
        a != 0 && b != 0 ==> a * b != 0,
{
}

/// A fraction with denominator 1 is its numerator.
pub proof fn lemma_ratio_whole(n: int) by (nonlinear_arith)
    ensures
        ratio(n, 1) == n as real,
{
}

/// Every integer of 64 bits has a representation.
pub proof fn lemma_whole_representable(n: int)
    requires
        i64::MIN <= n <= i64::MAX,
    ensures
        representable(n as real),
{
    lemma_ratio_whole(n);
    assert(fits(n, 1));
}

} // verus!
