//! Greatest common divisors: the definition, the facts that lowest terms rest
//! on, and the loop that computes one.
use vstd::prelude::*;
use vstd::arithmetic::div_mod::lemma_fundamental_div_mod;

verus! {

/// The greatest common divisor of `a` and `b`, by Euclid's recursion.
/// `gcd(0, 0)` is 0.
pub open spec fn gcd(a: nat, b: nat) -> nat
    decreases b,
{
    if b == 0 {
        a
    } else {
        gcd(b, a % b)
    }
}

/// The absolute value of an integer.
pub open spec fn abs(n: int) -> nat {
    if n < 0 {
        (-n) as nat
    } else {
        n as nat
    }
}

/// Two numbers that are not both zero have a positive greatest common divisor.
pub proof fn lemma_gcd_positive(a: nat, b: nat)
    requires
        a > 0 || b > 0,
    ensures
        gcd(a, b) > 0,
    decreases b,
{
    if b != 0 {
        lemma_gcd_positive(b, a % b);
    }
}

/// The greatest common divisor divides both numbers: the result holds the two
/// quotients.
pub proof fn lemma_gcd_divides(a: nat, b: nat) -> (c: (nat, nat))
    ensures
        a == gcd(a, b) * c.0,
        b == gcd(a, b) * c.1,
    decreases b,
{
    if b == 0 {
        (1, 0)
    } else {
        let r: nat = a % b;
        let q: nat = a / b;
        let sub = lemma_gcd_divides(b, r);
        let g: nat = gcd(a, b);
        let u: nat = sub.0;
        let v: nat = sub.1;
        lemma_fundamental_div_mod(a as int, b as int);
        assert(a == g * (u * q + v)) by (nonlinear_arith)
            requires
                b == g * u,
                r == g * v,
                a == b * q + r,
        ;
        (u * q + v, u)
    }
}

/// Bezout's identity: some integer combination of `a` and `b` is their
/// greatest common divisor. The result holds the two coefficients.
pub proof fn lemma_bezout(a: nat, b: nat) -> (c: (int, int))
    ensures
        c.0 * a + c.1 * b == gcd(a, b),
    decreases b,
{
    if b == 0 {
        (1, 0)
    } else {
        let r: nat = a % b;
        let q: nat = a / b;
        let sub = lemma_bezout(b, r);
        let x: int = sub.0;
        let y: int = sub.1;
        lemma_fundamental_div_mod(a as int, b as int);
        assert(y * a + (x - y * q) * b == x * b + y * r) by (nonlinear_arith)
            requires
                a == b * q + r,
        ;
        (y, x - y * q)
    }
}

/// Dividing two numbers by their greatest common divisor leaves two numbers
/// with no common divisor but 1.
pub proof fn lemma_quotients_coprime(a: nat, b: nat, g: nat, s: nat, t: nat)
    requires
        g == gcd(a, b),
        g > 0,
        a == g * s,
        b == g * t,
    ensures
        gcd(s, t) == 1,
{
    let c = lemma_bezout(a, b);
    let x: int = c.0;
    let y: int = c.1;
    assert(x * s + y * t == 1) by (nonlinear_arith)
        requires
            x * a + y * b == g,
            a == g * s,
            b == g * t,
            g > 0,
    ;
    let h: nat = gcd(s, t);
    let d = lemma_gcd_divides(s, t);
    let u: nat = d.0;
    let v: nat = d.1;
    let m: int = x * u + y * v;
    assert(h * m == 1) by (nonlinear_arith)
        requires
            x * s + y * t == 1,
            s == h * u,
            t == h * v,
            m == x * u + y * v,
    ;
    assert(h == 1) by (nonlinear_arith)
        requires
            h * m == 1,
    ;
}

/// A fraction in lowest terms has the least numerator and denominator among
/// the fractions of its value: where `n / d` equals `p / q` and `p`, `q` have
/// no common divisor, `n` and `d` are `p` and `q` times one positive factor,
/// which is the result.
pub proof fn lemma_lowest_terms_least(n: int, d: int, p: int, q: int) -> (k: int)
    requires
        d > 0,
        q > 0,
        gcd(abs(p), q as nat) == 1,
        n * q == p * d,
    ensures
        k > 0,
        n == k * p,
        d == k * q,
{
    let c = lemma_bezout(abs(p), q as nat);
    let x: int = if p < 0 { -c.0 } else { c.0 };
    let y: int = c.1;
    assert(x * p + y * q == 1) by (nonlinear_arith)
        requires
            c.0 * abs(p) + y * q == 1,
            x == if p < 0 { -c.0 } else { c.0 },
            abs(p) == if p < 0 { -p } else { p },
    ;
    let k: int = x * n + y * d;
    assert(d == k * q) by (nonlinear_arith)
        requires
            k == x * n + y * d,
            x * p + y * q == 1,
            n * q == p * d,
    ;
    assert(k > 0) by (nonlinear_arith)
        requires
            d == k * q,
            d > 0,
            q > 0,
    ;
    assert(n == k * p) by (nonlinear_arith)
        requires
            d == k * q,
            n * q == p * d,
            q > 0,
    ;
    k
}

/// Computes the greatest common divisor of `a` and `b`.
pub fn compute_gcd(a: u128, b: u128) -> (g: u128)
    ensures
        g == gcd(a as nat, b as nat),
{
    let mut x: u128 = a;
    let mut y: u128 = b;
    while y != 0
        invariant
            gcd(x as nat, y as nat) == gcd(a as nat, b as nat),
        decreases y,
    {
        let r: u128 = x % y;
        x = y;
        y = r;
    }
    x
}

} // verus!
