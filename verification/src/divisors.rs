//! Divisibility, greatest common divisors and primes, as far as the period
//! of a shift register needs them.

use vstd::arithmetic::div_mod::{
    lemma_fundamental_div_mod, lemma_fundamental_div_mod_converse, lemma_mod_multiples_basic,
};
use vstd::prelude::*;

verus! {

/// `n` is `k` times `d`.
pub open spec fn is_multiple(n: int, d: int, k: int) -> bool {
    n == d * k
}

/// `d` divides `n`: `n` is a multiple of `d`.
pub open spec fn divides(d: int, n: int) -> bool {
    exists|k: int| is_multiple(n, d, k)
}

/// `p` is at least 2 and no number strictly between 1 and `p` divides it.
pub open spec fn is_prime(p: int) -> bool {
    &&& p >= 2
    &&& forall|d: int| 2 <= d < p ==> #[trigger] (p % d) != 0
}

/// Greatest common divisor, by Euclid's algorithm.
pub open spec fn gcd(a: nat, b: nat) -> nat
    decreases b,
{
    if b == 0 {
        a
    } else {
        gcd(b, a % b)
    }
}

/// Coefficients `(x, y)` with `a x + b y == gcd(a, b)`.
pub open spec fn bezout(a: nat, b: nat) -> (int, int)
    decreases b,
{
    if b == 0 {
        (1, 0)
    } else {
        let (x, y) = bezout(b, a % b);
        (y, x - (a / b) * y)
    }
}

/// For a positive `d`, dividing is having remainder zero.
pub proof fn lemma_divides_is_mod(d: int, n: int)
    requires
        d > 0,
    ensures
        divides(d, n) <==> n % d == 0,
{
    if divides(d, n) {
        let k = choose|k: int| is_multiple(n, d, k);
        assert(n == k * d) by (nonlinear_arith)
            requires
                n == d * k,
        ;
        lemma_mod_multiples_basic(k, d);
    }
    if n % d == 0 {
        lemma_fundamental_div_mod(n, d);
        assert(is_multiple(n, d, n / d));
    }
}

/// A witness shows divisibility.
pub proof fn lemma_divides_witness(d: int, k: int, n: int)
    requires
        n == d * k,
    ensures
        divides(d, n),
{
    assert(is_multiple(n, d, k));
}

/// A divisor of two numbers divides their combinations.
pub proof fn lemma_divides_combination(d: int, a: int, x: int, b: int, y: int)
    requires
        divides(d, a),
        divides(d, b),
    ensures
        divides(d, a * x + b * y),
{
    let k = choose|k: int| is_multiple(a, d, k);
    let l = choose|l: int| is_multiple(b, d, l);
    assert(a * x + b * y == d * (k * x + l * y)) by (nonlinear_arith)
        requires
            a == d * k,
            b == d * l,
    ;
    assert(is_multiple(a * x + b * y, d, k * x + l * y));
}

/// A positive multiple of a positive number is at least that number.
pub proof fn lemma_divisor_le(d: int, n: int)
    requires
        d > 0,
        n > 0,
        divides(d, n),
    ensures
        d <= n,
{
    let k = choose|k: int| is_multiple(n, d, k);
    assert(k >= 1) by (nonlinear_arith)
        requires
            n == d * k,
            d > 0,
            n > 0,
    ;
    assert(d <= n) by (nonlinear_arith)
        requires
            n == d * k,
            d > 0,
            k >= 1,
    ;
}

/// The greatest common divisor divides both numbers and is a combination of
/// them.
pub proof fn lemma_gcd(a: nat, b: nat)
    ensures
        divides(gcd(a, b) as int, a as int),
        divides(gcd(a, b) as int, b as int),
        a * bezout(a, b).0 + b * bezout(a, b).1 == gcd(a, b),
        a > 0 || b > 0 ==> gcd(a, b) > 0,
    decreases b,
{
    let g = gcd(a, b) as int;
    if b == 0 {
        lemma_divides_witness(g, 1, a as int);
        lemma_divides_witness(g, 0, 0);
    } else {
        let r = a % b;
        let q = a / b;
        lemma_gcd(b, r);
        lemma_fundamental_div_mod(a as int, b as int);
        let (x, y) = bezout(b, r);
        assert(a as int == (b as int) * (q as int) + (r as int) * 1);
        lemma_divides_combination(g, b as int, q as int, r as int, 1);
        assert(a * y + b * (x - q * y) == b * x + r * y) by (nonlinear_arith)
            requires
                a == b * q + r,
        ;
    }
}

/// A number that a prime does not divide is coprime to it.
pub proof fn lemma_gcd_with_prime(m: nat, p: nat)
    requires
        is_prime(p as int),
        m % p != 0,
    ensures
        gcd(m, p) == 1,
{
    let g = gcd(m, p) as int;
    lemma_gcd(m, p);
    lemma_divisor_le(g, p as int);
    lemma_divides_is_mod(g, p as int);
    if g == p {
        lemma_divides_is_mod(g, m as int);
    }
}

/// Where a prime `p` does not divide `m`, and `m` divides `p k`, `m` divides
/// `k`.
pub proof fn lemma_cancel_prime(m: nat, p: nat, k: nat)
    requires
        m > 0,
        is_prime(p as int),
        m % p != 0,
        divides(m as int, (p * k) as int),
    ensures
        divides(m as int, k as int),
{
    lemma_gcd_with_prime(m, p);
    lemma_gcd(m, p);
    let (x, y) = bezout(m, p);
    lemma_divides_witness(m as int, 1, m as int);
    lemma_divides_combination(m as int, m as int, x * k, (p * k) as int, y);
    assert((m as int) * (x * k) + ((p * k) as int) * y == k) by (nonlinear_arith)
        requires
            m * x + p * y == 1,
    ;
}

/// Product of the numbers of a sequence.
pub open spec fn product(factors: Seq<nat>) -> nat
    decreases factors.len(),
{
    if factors.len() == 0 {
        1
    } else {
        factors[0] * product(factors.skip(1))
    }
}

/// The product of a sequence with one more number at its end.
pub proof fn lemma_product_push(factors: Seq<nat>, p: nat)
    ensures
        product(factors.push(p)) == product(factors) * p,
    decreases factors.len(),
{
    let longer = factors.push(p);
    if factors.len() == 0 {
        assert(longer.skip(1) =~= Seq::<nat>::empty());
        assert(product(longer.skip(1)) == 1);
        assert(product(longer) == longer[0] * product(longer.skip(1)));
        assert(product(factors) == 1);
    } else {
        let head = factors[0];
        let tail = product(factors.skip(1));
        assert(longer.skip(1) =~= factors.skip(1).push(p));
        lemma_product_push(factors.skip(1), p);
        assert(product(longer.skip(1)) == tail * p);
        assert(product(longer) == longer[0] * product(longer.skip(1)));
        assert(product(factors) == head * tail);
        assert(head * (tail * p) == (head * tail) * p) by (nonlinear_arith);
    }
}

/// A number greater than 1 that divides a product of primes is a multiple
/// of one of them.
pub proof fn lemma_divisor_of_prime_product(m: nat, factors: Seq<nat>) -> (i: int)
    requires
        m > 1,
        forall|j: int| 0 <= j < factors.len() ==> is_prime(#[trigger] factors[j] as int),
        divides(m as int, product(factors) as int),
    ensures
        0 <= i < factors.len(),
        m % factors[i] == 0,
    decreases factors.len(),
{
    if factors.len() == 0 {
        lemma_divisor_le(m as int, 1);
        0
    } else {
        let p = factors[0];
        let rest = factors.skip(1);
        assert(is_prime(p as int));
        if m % p == 0 {
            0
        } else {
            lemma_cancel_prime(m, p, product(rest));
            assert forall|j: int| 0 <= j < rest.len() implies is_prime(#[trigger] rest[j] as int) by {
                assert(rest[j] == factors[j + 1]);
            }
            let i = lemma_divisor_of_prime_product(m, rest);
            assert(rest[i] == factors[i + 1]);
            i + 1
        }
    }
}

/// A number with no divisor from 2 up to a bound whose square exceeds it is
/// prime.
pub proof fn lemma_prime_by_trial(p: int, bound: int)
    requires
        p >= 2,
        bound >= 1,
        (bound + 1) * (bound + 1) > p,
        forall|d: int| 2 <= d <= bound ==> #[trigger] (p % d) != 0,
    ensures
        is_prime(p),
{
    assert forall|d: int| 2 <= d < p implies #[trigger] (p % d) != 0 by {
        if p % d == 0 {
            lemma_fundamental_div_mod(p, d);
            let e = p / d;
            assert(p == d * e);
            assert(e >= 2 && e < p) by (nonlinear_arith)
                requires
                    p == d * e,
                    2 <= d < p,
            ;
            assert(p == e * d) by (nonlinear_arith)
                requires
                    p == d * e,
            ;
            lemma_mod_multiples_basic(d, e);
            assert(p % e == 0);
            if d > bound && e > bound {
                assert(d * e >= (bound + 1) * (bound + 1)) by (nonlinear_arith)
                    requires
                        d >= bound + 1,
                        e >= bound + 1,
                        bound >= 1,
                ;
            }
        }
    }
}

/// Where the set holds `a` and `b`, it holds their sum.
pub open spec fn holds_sum(members: spec_fn(nat) -> bool, a: nat, b: nat) -> bool {
    members(a) && members(b) ==> members(a + b)
}

/// Where the set holds `a` and `b`, and `a` is not less than `b`, it holds
/// their difference.
pub open spec fn holds_difference(members: spec_fn(nat) -> bool, a: nat, b: nat) -> bool {
    members(a) && members(b) && a >= b ==> members((a - b) as nat)
}

/// A set of natural numbers that holds 0 and, with any two of its members,
/// their sum and their difference.
pub open spec fn is_closed(members: spec_fn(nat) -> bool) -> bool {
    &&& members(0)
    &&& forall|a: nat, b: nat| #[trigger] holds_sum(members, a, b)
    &&& forall|a: nat, b: nat| #[trigger] holds_difference(members, a, b)
}

/// A closed set holds every multiple of a member.
pub proof fn lemma_closed_multiple(members: spec_fn(nat) -> bool, k: nat, m: nat)
    requires
        is_closed(members),
        members(k),
    ensures
        members(k * m),
    decreases m,
{
    if m > 0 {
        lemma_closed_multiple(members, k, (m - 1) as nat);
        assert(k * m == k * (m - 1) + k) by (nonlinear_arith);
        assert(holds_sum(members, (k * (m - 1)) as nat, k));
    } else {
        assert(k * m == 0) by (nonlinear_arith)
            requires
                m == 0,
        ;
    }
}

/// A closed set holds the remainder of one member by another.
pub proof fn lemma_closed_remainder(members: spec_fn(nat) -> bool, a: nat, b: nat)
    requires
        is_closed(members),
        members(a),
        members(b),
        b > 0,
    ensures
        members(a % b),
{
    lemma_fundamental_div_mod(a as int, b as int);
    lemma_closed_multiple(members, b, a / b);
    assert(a >= b * (a / b));
    assert(holds_difference(members, a, b * (a / b)));
}

/// A closed set holds the greatest common divisor of two members.
pub proof fn lemma_closed_gcd(members: spec_fn(nat) -> bool, a: nat, b: nat)
    requires
        is_closed(members),
        members(a),
        members(b),
    ensures
        members(gcd(a, b)),
    decreases b,
{
    if b != 0 {
        lemma_closed_remainder(members, a, b);
        lemma_closed_gcd(members, b, a % b);
    }
}

/// Where a closed set holds `len`, a product of primes, and holds no
/// `len / p` for a prime `p` of the product, it holds no positive number
/// below `len`.
pub proof fn lemma_least_member(
    members: spec_fn(nat) -> bool,
    len: nat,
    factors: Seq<nat>,
    k: nat,
)
    requires
        is_closed(members),
        members(len),
        len == product(factors),
        forall|j: int| 0 <= j < factors.len() ==> is_prime(#[trigger] factors[j] as int),
        forall|j: int| 0 <= j < factors.len() ==> !members(len / #[trigger] factors[j]),
        0 < k < len,
    ensures
        !members(k),
{
    if members(k) {
        let d = gcd(k, len);
        lemma_closed_gcd(members, k, len);
        lemma_gcd(k, len);
        lemma_divisor_le(d as int, k as int);
        lemma_divides_is_mod(d as int, len as int);
        lemma_fundamental_div_mod(len as int, d as int);
        let m = len / d;
        assert(len == d * m);
        assert(m > 1) by (nonlinear_arith)
            requires
                len == d * m,
                0 < d < len,
        ;
        assert(is_multiple(len as int, m as int, d as int)) by (nonlinear_arith)
            requires
                len == d * m,
        ;
        let j = lemma_divisor_of_prime_product(m, factors);
        let p = factors[j];
        assert(is_prime(p as int));
        lemma_fundamental_div_mod(m as int, p as int);
        let e = m / p;
        assert(m == p * e);
        assert(len == p * (d * e)) by (nonlinear_arith)
            requires
                len == d * m,
                m == p * e,
        ;
        vstd::arithmetic::div_mod::lemma_div_multiples_vanish((d * e) as int, p as int);
        assert(len / p == d * e);
        lemma_closed_multiple(members, d, e);
        assert(false);
    }
}

} // verus!
