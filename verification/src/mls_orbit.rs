//! Periods of the register: how a certificate of polynomial products shows
//! that the state 1 comes back after exactly `2^n - 1` steps, and why every
//! nonzero state then lies on the one cycle.

use crate::divisors::{
    holds_difference, holds_sum, is_closed, is_prime, lemma_least_member, product,
};
use crate::mls::{lemma_step_in_range, state_mask, step};
use crate::mls_algebra::{
    act, clmul, iterate, lemma_act_commutes_iterate, lemma_act_product, lemma_act_sum,
    lemma_act_unfold, lemma_act_zero, lemma_iterate_add, lemma_iterate_in_range,
    lemma_iterate_injective, lemma_step_linear,
};
use vstd::prelude::*;
use vstd::relations::injective_on;
use vstd::set_lib::{lemma_int_range, lemma_map_size, lemma_subset_equality, set_int_range};

verus! {

/// The polynomial `r` takes the state 1 where `k` steps take it: `r` stands
/// for the `k`-th power of the step.
pub open spec fn power_is(n: u32, k: nat, r: u64) -> bool {
    act(n, r, 1) == iterate(n, 1, k)
}

proof fn lemma_xor_unit(a: u32)
    by (bit_vector)
    ensures
        a ^ 0 == a,
        0 ^ a == a,
        a ^ a == 0,
{
}

/// One unfolding of `act` along a step that is known: where `s` steps to
/// `t` and the rest of `p` takes `t` to `rest`, `p` takes `s` to `rest`, with
/// `s` added where the low bit of `p` is set.
pub proof fn lemma_act_step(n: u32, p: u64, s: u32, t: u32, rest: u32)
    requires
        step(n, s) == t,
        act(n, p / 2, t) == rest,
    ensures
        act(n, p, s) == (if p % 2 == 1 {
            s ^ rest
        } else {
            rest
        }),
{
    lemma_act_unfold(n, p, s);
    lemma_xor_unit(rest);
}

/// The polynomial 1 stands for no step.
pub proof fn lemma_power_zero(n: u32)
    ensures
        power_is(n, 0, 1),
{
    lemma_act_unfold(n, 1, 1);
    lemma_xor_unit(1);
    assert(act(n, 0, step(n, 1)) == 0);
}

/// The polynomial `x` stands for one step.
pub proof fn lemma_power_one(n: u32)
    ensures
        power_is(n, 1, 2),
{
    lemma_act_unfold(n, 2, 1);
    lemma_act_unfold(n, 1, step(n, 1));
    lemma_xor_unit(step(n, 1));
    assert(act(n, 0, step(n, step(n, 1))) == 0);
    assert(iterate(n, 1, 1) == step(n, iterate(n, 1, 0)));
}

/// Where `ra` stands for `a` steps and `rb` for `b` steps, and their product
/// is `r` plus a multiple of a polynomial `c` that takes 1 to 0, `r` stands
/// for `a + b` steps.
pub proof fn lemma_power_mul(n: u32, c: u64, a: nat, ra: u64, b: nat, rb: u64, q: u64, r: u64)
    requires
        1 <= n <= 31,
        act(n, c, 1) == 0,
        power_is(n, a, ra),
        power_is(n, b, rb),
        ra < 0x1_0000_0000,
        rb < 0x1_0000_0000,
        q < 0x1_0000_0000,
        c < 0x1_0000_0000,
        clmul(ra, rb) == clmul(q, c) ^ r,
    ensures
        power_is(n, a + b, r),
{
    lemma_iterate_add(n, 1, b, a);
    lemma_act_commutes_iterate(n, rb, 1, a);
    lemma_act_product(n, rb, ra, 1);
    lemma_act_product(n, ra, rb, 1);
    lemma_act_commutes_iterate(n, ra, 1, b);
    lemma_iterate_add(n, 1, a, b);
    lemma_act_sum(n, clmul(q, c), r, 1);
    lemma_act_product(n, q, c, 1);
    lemma_act_zero(n, q);
    lemma_xor_unit(act(n, r, 1));
}

/// Where `r` stands for `k` steps and `r + 1` has an inverse modulo a
/// polynomial `c` that takes 1 to 0, `k` steps do not take 1 to itself.
pub proof fn lemma_power_moves(n: u32, c: u64, k: nat, r: u64, u: u64, q: u64)
    requires
        1 <= n <= 31,
        act(n, c, 1) == 0,
        power_is(n, k, r),
        r < 0x1_0000_0000,
        u < 0x1_0000_0000,
        q < 0x1_0000_0000,
        c < 0x1_0000_0000,
        clmul(u, r ^ 1) == clmul(q, c) ^ 1,
    ensures
        iterate(n, 1, k) != 1,
{
    if iterate(n, 1, k) == 1 {
        lemma_power_zero(n);
        lemma_act_sum(n, r, 1, 1);
        lemma_xor_unit(1);
        assert(act(n, r ^ 1, 1) == 0);
        assert(r ^ 1 < 0x1_0000_0000) by (bit_vector)
            requires
                r < 0x1_0000_0000,
        ;
        lemma_act_product(n, u, r ^ 1, 1);
        lemma_act_zero(n, u);
        lemma_act_sum(n, clmul(q, c), 1, 1);
        lemma_act_product(n, q, c, 1);
        lemma_act_zero(n, q);
        assert(false);
    }
}

/// `k` steps take `s` back to itself.
pub open spec fn is_period(n: u32, s: u32, k: nat) -> bool {
    iterate(n, s, k) == s
}

/// The periods of a state hold 0 and, with two periods, their sum and their
/// difference.
pub proof fn lemma_periods_closed(n: u32, s: u32)
    requires
        1 <= n <= 31,
        s <= state_mask(n),
    ensures
        is_closed(|k: nat| is_period(n, s, k)),
{
    let members = |k: nat| is_period(n, s, k);
    assert forall|a: nat, b: nat| #[trigger] holds_sum(members, a, b) by {
        lemma_iterate_add(n, s, a, b);
    }
    assert forall|a: nat, b: nat| #[trigger] holds_difference(members, a, b) by {
        if a >= b && members(a) && members(b) {
            lemma_iterate_add(n, s, (a - b) as nat, b);
            lemma_iterate_in_range(n, s, (a - b) as nat);
            lemma_iterate_injective(n, iterate(n, s, (a - b) as nat), s, b);
        }
    }
}

/// Where `len` is a period of `s` and a product of primes `p`, and no
/// `len / p` is a period, no positive number below `len` is a period.
pub proof fn lemma_exact_period(n: u32, s: u32, len: nat, factors: Seq<nat>, k: nat)
    requires
        1 <= n <= 31,
        s <= state_mask(n),
        is_period(n, s, len),
        len == product(factors),
        forall|j: int| 0 <= j < factors.len() ==> is_prime(#[trigger] factors[j] as int),
        forall|j: int|
            0 <= j < factors.len() ==> !is_period(n, s, len / #[trigger] factors[j]),
        0 < k < len,
    ensures
        !is_period(n, s, k),
{
    let members = |k: nat| is_period(n, s, k);
    lemma_periods_closed(n, s);
    assert forall|j: int| 0 <= j < factors.len() implies !members(
        len / #[trigger] factors[j],
    ) by {
        assert(!is_period(n, s, len / factors[j]));
    }
    assert(members(len));
    lemma_least_member(members, len, factors, k);
}

/// Where the state 1 has period `2^n - 1` and no shorter one, every nonzero
/// state of `n` bits is reached from 1 in fewer than `2^n - 1` steps.
pub proof fn lemma_orbit_covers(n: u32, s: u32) -> (k: nat)
    requires
        1 <= n <= 31,
        1 <= s <= state_mask(n),
        forall|j: nat| 0 < j < state_mask(n) ==> !is_period(n, 1, j),
    ensures
        k < state_mask(n),
        iterate(n, 1, k) == s,
{
    let len = state_mask(n) as int;
    let dom = set_int_range(0, len);
    let f = |i: int| iterate(n, 1, i as nat) as int;
    let img = dom.map(f);
    let all = set_int_range(1, len + 1);
    lemma_int_range(0, len);
    lemma_int_range(1, len + 1);
    assert(injective_on(f, dom)) by {
        assert forall|x1: int, x2: int|
            dom.contains(x1) && dom.contains(x2) && #[trigger] f(x1) == #[trigger] f(x2) implies x1
            == x2 by {
            if x1 < x2 {
                lemma_cycle_start(n, x1 as nat, x2 as nat);
            } else if x2 < x1 {
                lemma_cycle_start(n, x2 as nat, x1 as nat);
            }
        }
    }
    lemma_map_size(dom, img, f);
    assert(img.subset_of(all)) by {
        assert forall|v: int| img.contains(v) implies all.contains(v) by {
            let i = choose|i: int| dom.contains(i) && v == f(i);
            lemma_iterate_nonzero(n, 1, i as nat);
        }
    }
    lemma_subset_equality(img, all);
    assert(all.contains(s as int));
    assert(img.contains(s as int));
    let i = choose|i: int| dom.contains(i) && s as int == f(i);
    i as nat
}

/// Iterating takes a nonzero state of `n` bits to a nonzero state of `n`
/// bits.
pub proof fn lemma_iterate_nonzero(n: u32, s: u32, k: nat)
    requires
        1 <= n <= 31,
        1 <= s <= state_mask(n),
    ensures
        1 <= iterate(n, s, k) <= state_mask(n),
    decreases k,
{
    if k > 0 {
        lemma_iterate_nonzero(n, s, (k - 1) as nat);
        lemma_step_in_range(n, iterate(n, s, (k - 1) as nat));
    }
}

/// Where two points of the orbit of 1 are equal, their distance is a period
/// of 1.
pub proof fn lemma_cycle_start(n: u32, i: nat, j: nat)
    requires
        1 <= n <= 31,
        i <= j,
        iterate(n, 1, i) == iterate(n, 1, j),
    ensures
        is_period(n, 1, (j - i) as nat),
{
    crate::mls::lemma_mask_facts(n);
    lemma_iterate_add(n, 1, (j - i) as nat, i);
    lemma_iterate_in_range(n, 1, (j - i) as nat);
    lemma_iterate_injective(n, iterate(n, 1, (j - i) as nat), 1, i);
}

/// Where the state 1 has period `2^n - 1` and no shorter one, so has every
/// nonzero state of `n` bits: it comes back after `2^n - 1` steps, and the
/// states on the way are pairwise different.
pub proof fn lemma_every_orbit(n: u32, s: u32, i: nat, j: nat)
    requires
        1 <= n <= 31,
        1 <= s <= state_mask(n),
        is_period(n, 1, state_mask(n) as nat),
        forall|k: nat| 0 < k < state_mask(n) ==> !is_period(n, 1, k),
        i < j,
        j - i < state_mask(n),
    ensures
        iterate(n, s, state_mask(n) as nat) == s,
        iterate(n, s, i) != iterate(n, s, j),
{
    let len = state_mask(n) as nat;
    let k = lemma_orbit_covers(n, s);
    lemma_iterate_add(n, 1, k, len);
    lemma_iterate_add(n, 1, len, k);
    lemma_iterate_add(n, 1, k, i);
    lemma_iterate_add(n, 1, k, j);
    if iterate(n, s, i) == iterate(n, s, j) {
        lemma_cycle_start(n, k + i, k + j);
        assert(!is_period(n, 1, (j - i) as nat));
    }
}

} // verus!
