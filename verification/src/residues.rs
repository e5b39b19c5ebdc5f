//! Powers modulo a number, and primality from the order of a residue.

use crate::divisors::{
    holds_difference, holds_sum, is_closed, is_prime, lemma_least_member, product,
};
use vstd::arithmetic::div_mod::{
    lemma_fundamental_div_mod, lemma_mul_mod_noop_general, lemma_small_mod,
};
use vstd::prelude::*;
use vstd::relations::injective_on;
use vstd::set_lib::{lemma_int_range, lemma_map_size, lemma_subset_equality, set_int_range};

verus! {

/// `a^k` modulo `p`.
pub open spec fn power_mod(a: nat, k: nat, p: nat) -> nat
    decreases k,
{
    if k == 0 {
        1
    } else {
        (power_mod(a, (k - 1) as nat, p) * a) % p
    }
}

/// A power modulo `p` is less than `p`.
pub proof fn lemma_power_mod_bound(a: nat, k: nat, p: nat)
    requires
        p >= 2,
    ensures
        power_mod(a, k, p) < p,
{
}

/// Exponents add up: `a^(i + j)` is `a^i a^j` modulo `p`.
pub proof fn lemma_power_mod_add(a: nat, i: nat, j: nat, p: nat)
    requires
        p >= 2,
    ensures
        power_mod(a, i + j, p) == (power_mod(a, i, p) * power_mod(a, j, p)) % p,
    decreases j,
{
    let x = power_mod(a, i, p);
    lemma_power_mod_bound(a, i, p);
    if j == 0 {
        assert(x * 1 == x) by (nonlinear_arith);
        lemma_small_mod(x, p);
    } else {
        let y = power_mod(a, (j - 1) as nat, p);
        lemma_power_mod_add(a, i, (j - 1) as nat, p);
        assert(power_mod(a, i + j, p) == (power_mod(a, (i + j - 1) as nat, p) * a) % p);
        lemma_mul_mod_noop_general((x * y) as int, a as int, p as int);
        lemma_mul_mod_noop_general(x as int, (y * a) as int, p as int);
        assert((x * y) * a == x * (y * a)) by (nonlinear_arith);
    }
}

/// Where `a^i` is `x` and `a^j` is `y` modulo `p`, `a^(i + j)` is `x y`
/// modulo `p`.
pub proof fn lemma_power_mod_chain(a: nat, p: nat, i: nat, x: nat, j: nat, y: nat, r: nat)
    requires
        p >= 2,
        power_mod(a, i, p) == x,
        power_mod(a, j, p) == y,
        (x * y) % p == r,
    ensures
        power_mod(a, i + j, p) == r,
{
    lemma_power_mod_add(a, i, j, p);
}

/// The exponents that take `a` to 1 modulo `p` hold 0 and, with two
/// exponents, their sum and their difference.
pub proof fn lemma_orders_closed(a: nat, p: nat)
    requires
        p >= 2,
    ensures
        is_closed(|k: nat| power_mod(a, k, p) == 1),
{
    let members = |k: nat| power_mod(a, k, p) == 1;
    assert forall|i: nat, j: nat| #[trigger] holds_sum(members, i, j) by {
        lemma_power_mod_add(a, i, j, p);
        lemma_small_mod(1, p);
    }
    assert forall|i: nat, j: nat| #[trigger] holds_difference(members, i, j) by {
        if i >= j && members(i) && members(j) {
            let x = power_mod(a, (i - j) as nat, p);
            lemma_power_mod_add(a, (i - j) as nat, j, p);
            lemma_power_mod_bound(a, (i - j) as nat, p);
            assert(x * 1 == x) by (nonlinear_arith);
            lemma_small_mod(x, p);
        }
    }
}

/// Where `a^(p - 1)` is 1 modulo `p`, every power of `a` up to the
/// `(p - 1)`-th has an inverse modulo `p`, and so is not 0.
pub proof fn lemma_power_mod_unit(a: nat, k: nat, p: nat)
    requires
        p >= 2,
        k <= p - 1,
        power_mod(a, (p - 1) as nat, p) == 1,
    ensures
        (power_mod(a, k, p) * power_mod(a, (p - 1 - k) as nat, p)) % p == 1,
        power_mod(a, k, p) != 0,
{
    lemma_power_mod_add(a, k, (p - 1 - k) as nat, p);
    let y = power_mod(a, (p - 1 - k) as nat, p);
    if power_mod(a, k, p) == 0 {
        assert(0 * y == 0) by (nonlinear_arith);
        lemma_small_mod(0, p);
    }
}

/// Where two powers of `a` below the `(p - 1)`-th are equal modulo `p`, and
/// `a^(p - 1)` is 1, the distance of their exponents takes `a` to 1.
pub proof fn lemma_power_mod_cancel(a: nat, i: nat, j: nat, p: nat)
    requires
        p >= 2,
        i <= j <= p - 1,
        power_mod(a, (p - 1) as nat, p) == 1,
        power_mod(a, i, p) == power_mod(a, j, p),
    ensures
        power_mod(a, (j - i) as nat, p) == 1,
{
    let rest = (p - 1 - i) as nat;
    let x = power_mod(a, (j - i) as nat, p);
    lemma_power_mod_unit(a, i, p);
    lemma_power_mod_add(a, j, rest, p);
    lemma_power_mod_add(a, (j - i) as nat, (p - 1) as nat, p);
    assert(j + rest == (j - i) as nat + (p - 1) as nat);
    lemma_power_mod_bound(a, (j - i) as nat, p);
    assert(x * 1 == x) by (nonlinear_arith);
    lemma_small_mod(x, p);
}

/// A number `p` is prime where some `a` has order `p - 1` modulo `p`: where
/// `a^(p - 1)` is 1, `p - 1` is a product of primes `q`, and no
/// `a^((p - 1) / q)` is 1.
pub proof fn lemma_prime_by_order(p: nat, a: nat, factors: Seq<nat>)
    requires
        p >= 2,
        power_mod(a, (p - 1) as nat, p) == 1,
        p - 1 == product(factors),
        forall|j: int| 0 <= j < factors.len() ==> is_prime(#[trigger] factors[j] as int),
        forall|j: int|
            0 <= j < factors.len() ==> power_mod(a, ((p - 1) as nat) / #[trigger] factors[j], p)
                != 1,
    ensures
        is_prime(p as int),
{
    let len = (p - 1) as nat;
    let members = |k: nat| power_mod(a, k, p) == 1;
    lemma_orders_closed(a, p);
    assert forall|j: int| 0 <= j < factors.len() implies !members(len / #[trigger] factors[j]) by {
        assert(power_mod(a, len / factors[j], p) != 1);
    }
    assert(members(len));
    let dom = set_int_range(0, len as int);
    let f = |i: int| power_mod(a, i as nat, p) as int;
    let img = dom.map(f);
    let all = set_int_range(1, p as int);
    lemma_int_range(0, len as int);
    lemma_int_range(1, p as int);
    assert(injective_on(f, dom)) by {
        assert forall|x1: int, x2: int|
            dom.contains(x1) && dom.contains(x2) && #[trigger] f(x1) == #[trigger] f(x2) implies x1
            == x2 by {
            if x1 < x2 {
                lemma_power_mod_cancel(a, x1 as nat, x2 as nat, p);
                lemma_least_member(members, len, factors, (x2 - x1) as nat);
            } else if x2 < x1 {
                lemma_power_mod_cancel(a, x2 as nat, x1 as nat, p);
                lemma_least_member(members, len, factors, (x1 - x2) as nat);
            }
        }
    }
    lemma_map_size(dom, img, f);
    assert(img.subset_of(all)) by {
        assert forall|v: int| img.contains(v) implies all.contains(v) by {
            let i = choose|i: int| dom.contains(i) && v == f(i);
            lemma_power_mod_unit(a, i as nat, p);
            lemma_power_mod_bound(a, i as nat, p);
        }
    }
    lemma_subset_equality(img, all);
    assert forall|d: int| 2 <= d < p implies #[trigger] (p as int % d) != 0 by {
        if p as int % d == 0 {
            assert(all.contains(d));
            assert(img.contains(d));
            let i = choose|i: int| dom.contains(i) && d == f(i);
            lemma_power_mod_unit(a, i as nat, p);
            let y = power_mod(a, (p - 1 - i) as nat, p) as int;
            let e = p as int / d;
            let m = (d * y) / (p as int);
            lemma_fundamental_div_mod(p as int, d);
            lemma_fundamental_div_mod(d * y, p as int);
            assert(d * (y - e * m) == 1) by (nonlinear_arith)
                requires
                    p as int == d * e,
                    d * y == (p as int) * m + 1,
            ;
            assert(false) by (nonlinear_arith)
                requires
                    d * (y - e * m) == 1,
                    d >= 2,
            ;
        }
    }
}

} // verus!
