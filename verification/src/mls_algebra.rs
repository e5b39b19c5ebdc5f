//! The register as a linear map over the field of two elements, and the
//! polynomials in it.

use crate::mls::{feedback_mask, parity, state_mask, step};
use vstd::prelude::*;

verus! {

/// The feedback masks as a chain of cases, for proofs by bit arithmetic.
pub open spec fn taps(n: u32) -> u32 {
    if n == 1 { 0x1 }
    else if n == 2 { 0x3 }
    else if n == 3 { 0x6 }
    else if n == 4 { 0xc }
    else if n == 5 { 0x14 }
    else if n == 6 { 0x30 }
    else if n == 7 { 0x48 }
    else if n == 8 { 0xb8 }
    else if n == 9 { 0x110 }
    else if n == 10 { 0x240 }
    else if n == 11 { 0x500 }
    else if n == 12 { 0xca0 }
    else if n == 13 { 0x1b00 }
    else if n == 14 { 0x3088 }
    else if n == 15 { 0x6000 }
    else if n == 16 { 0xd008 }
    else if n == 17 { 0x12000 }
    else if n == 18 { 0x20400 }
    else if n == 19 { 0x63000 }
    else if n == 20 { 0x90000 }
    else if n == 21 { 0x140000 }
    else if n == 22 { 0x300000 }
    else if n == 23 { 0x420000 }
    else if n == 24 { 0xe10000 }
    else if n == 25 { 0x1200000 }
    else if n == 26 { 0x2000023 }
    else if n == 27 { 0x4000013 }
    else if n == 28 { 0x9000000 }
    else if n == 29 { 0x14000000 }
    else if n == 30 { 0x20000029 }
    else { 0x48000000 }
}

/// The chain of cases agrees with the table.
pub proof fn lemma_taps_table(n: u32)
    requires
        1 <= n <= 31,
    ensures
        taps(n) == feedback_mask(n),
{
}

/// Parity of a word by folding it onto its low bit.
pub open spec fn parity_fold(x: u32) -> u32 {
    let a = x ^ (x >> 16);
    let b = a ^ (a >> 8);
    let c = b ^ (b >> 4);
    let d = c ^ (c >> 2);
    let e = d ^ (d >> 1);
    e & 1
}

/// The step written with bit operations only.
pub open spec fn step_bits(n: u32, s: u32) -> u32 {
    ((s << 1) | parity_fold(taps(n) & s)) & (((1u32 << n) - 1) as u32)
}

proof fn lemma_fold_facts(x: u32, y: u32)
    by (bit_vector)
    ensures
        parity_fold(0) == 0,
        parity_fold(x) <= 1,
        parity_fold(x) == (x % 2) ^ parity_fold(x / 2),
        parity_fold(x ^ y) == parity_fold(x) ^ parity_fold(y),
{
}

proof fn lemma_small_xor(a: u32, b: u32)
    by (bit_vector)
    requires
        a <= 1,
        b <= 1,
    ensures
        a ^ b == (a + b) % 2,
{
}

/// The parity of the number of one bits is what folding computes.
pub proof fn lemma_parity_is_fold(x: u32)
    ensures
        parity(x) == parity_fold(x),
    decreases x,
{
    lemma_fold_facts(x, 0);
    if x != 0 {
        lemma_parity_is_fold(x / 2);
        lemma_fold_facts(x / 2, 0);
        lemma_small_xor(x % 2, parity_fold(x / 2));
    }
}

/// The step is the same function in both forms.
pub proof fn lemma_step_is_step_bits(n: u32, s: u32)
    requires
        1 <= n <= 31,
    ensures
        step(n, s) == step_bits(n, s),
{
    lemma_taps_table(n);
    lemma_parity_is_fold(taps(n) & s);
}

proof fn lemma_step_bits_linear(n: u32, a: u32, b: u32)
    by (bit_vector)
    requires
        1 <= n <= 31,
    ensures
        step_bits(n, a ^ b) == step_bits(n, a) ^ step_bits(n, b),
        step_bits(n, 0) == 0,
        step_bits(n, a) <= ((1u32 << n) - 1) as u32,
{
}

proof fn lemma_step_bits_injective(n: u32, a: u32, b: u32)
    by (bit_vector)
    requires
        1 <= n <= 31,
        a <= ((1u32 << n) - 1) as u32,
        b <= ((1u32 << n) - 1) as u32,
        step_bits(n, a) == step_bits(n, b),
    ensures
        a == b,
{
}

/// The step is linear over exclusive or, keeps values within `n` bits, and
/// is one-to-one on values of `n` bits.
pub proof fn lemma_step_linear(n: u32, a: u32, b: u32)
    requires
        1 <= n <= 31,
    ensures
        step(n, a ^ b) == step(n, a) ^ step(n, b),
        step(n, 0) == 0,
        step(n, a) <= state_mask(n),
        a <= state_mask(n) && b <= state_mask(n) && step(n, a) == step(n, b) ==> a == b,
{
    lemma_step_is_step_bits(n, a);
    lemma_step_is_step_bits(n, b);
    lemma_step_is_step_bits(n, a ^ b);
    lemma_step_is_step_bits(n, 0);
    lemma_step_bits_linear(n, a, b);
    if a <= state_mask(n) && b <= state_mask(n) && step(n, a) == step(n, b) {
        lemma_step_bits_injective(n, a, b);
    }
}

/// The state `k` steps after `s`.
pub open spec fn iterate(n: u32, s: u32, k: nat) -> u32
    decreases k,
{
    if k == 0 {
        s
    } else {
        step(n, iterate(n, s, (k - 1) as nat))
    }
}

/// Steps add up: `a + b` steps are `a` steps and then `b` steps.
pub proof fn lemma_iterate_add(n: u32, s: u32, a: nat, b: nat)
    ensures
        iterate(n, s, a + b) == iterate(n, iterate(n, s, a), b),
    decreases b,
{
    if b > 0 {
        lemma_iterate_add(n, s, a, (b - 1) as nat);
        assert(iterate(n, s, a + b) == step(n, iterate(n, s, (a + b - 1) as nat)));
    }
}

/// Iterating keeps values within `n` bits.
pub proof fn lemma_iterate_in_range(n: u32, s: u32, k: nat)
    requires
        1 <= n <= 31,
        s <= state_mask(n),
    ensures
        iterate(n, s, k) <= state_mask(n),
    decreases k,
{
    if k > 0 {
        lemma_step_linear(n, iterate(n, s, (k - 1) as nat), 0);
    }
}

/// Iterating is one-to-one on values of `n` bits.
pub proof fn lemma_iterate_injective(n: u32, a: u32, b: u32, k: nat)
    requires
        1 <= n <= 31,
        a <= state_mask(n),
        b <= state_mask(n),
        iterate(n, a, k) == iterate(n, b, k),
    ensures
        a == b,
    decreases k,
{
    if k > 0 {
        let x = iterate(n, a, (k - 1) as nat);
        let y = iterate(n, b, (k - 1) as nat);
        lemma_iterate_in_range(n, a, (k - 1) as nat);
        lemma_iterate_in_range(n, b, (k - 1) as nat);
        lemma_step_linear(n, x, y);
        lemma_iterate_injective(n, a, b, (k - 1) as nat);
    }
}

/// `s` where `bit` is 1, and 0 where it is 0.
pub open spec fn scaled(bit: u64, s: u32) -> u32 {
    if bit == 1 {
        s
    } else {
        0
    }
}

/// The polynomial `p` in the step, applied to `s`: the exclusive or of the
/// states `i` steps after `s`, over the bits `i` set in `p`.
pub open spec fn act(n: u32, p: u64, s: u32) -> u32
    decreases p,
{
    if p == 0 {
        0
    } else {
        scaled(p % 2, s) ^ act(n, p / 2, step(n, s))
    }
}

/// Product of two polynomials over the field of two elements, each given by
/// its bits.
pub open spec fn clmul(p: u64, q: u64) -> u64
    decreases p,
{
    if p == 0 {
        0
    } else {
        (if p % 2 == 1 { q } else { 0 }) ^ (clmul(p / 2, q) << 1)
    }
}

proof fn lemma_xor32(a: u32, b: u32, c: u32, d: u32)
    by (bit_vector)
    ensures
        a ^ 0 == a,
        0 ^ a == a,
        a ^ a == 0,
        (a ^ b) ^ (c ^ d) == (a ^ c) ^ (b ^ d),
{
}

proof fn lemma_xor64(p: u64, q: u64)
    by (bit_vector)
    ensures
        (p ^ q) % 2 == (p % 2 + q % 2) % 2,
        (p ^ q) / 2 == (p / 2) ^ (q / 2),
        p ^ 0 == p,
        0 ^ p == p,
        p < 0x8000_0000_0000_0000 ==> (p << 1) % 2 == 0 && (p << 1) / 2 == p,
{
}

proof fn lemma_product_bound(a: u64, q: u64, r: u64)
    by (bit_vector)
    requires
        1 <= a <= 32,
        q < 0x1_0000_0000,
        a > 1 ==> r < 1u64 << ((a + 30) as u64),
        a == 1 ==> r == 0,
    ensures
        q ^ (r << 1) < 1u64 << ((a + 31) as u64),
        r << 1 < 1u64 << ((a + 31) as u64),
        1u64 << ((a + 31) as u64) <= 0x8000_0000_0000_0000,
{
}

proof fn lemma_halving(a: u64, p: u64)
    by (bit_vector)
    requires
        a <= 32,
        p < 1u64 << a,
    ensures
        a == 0 ==> p == 0,
        a >= 1 ==> p / 2 < 1u64 << ((a - 1) as u64),
        a == 1 ==> p / 2 == 0,
{
}

/// One unfolding of `act`, which holds of the zero polynomial too.
pub proof fn lemma_act_unfold(n: u32, p: u64, s: u32)
    ensures
        act(n, p, s) == scaled(p % 2, s) ^ act(n, p / 2, step(n, s)),
{
    if p == 0 {
        lemma_xor32(0, 0, 0, 0);
    }
}

/// A polynomial applied to zero is zero.
pub proof fn lemma_act_zero(n: u32, p: u64)
    requires
        1 <= n <= 31,
    ensures
        act(n, p, 0) == 0,
    decreases p,
{
    if p != 0 {
        lemma_step_linear(n, 0, 0);
        lemma_act_zero(n, p / 2);
        lemma_xor32(0, 0, 0, 0);
    }
}

/// The exclusive or of two polynomials, applied to a state, is the
/// exclusive or of what each gives.
pub proof fn lemma_act_sum(n: u32, p: u64, q: u64, s: u32)
    ensures
        act(n, p ^ q, s) == act(n, p, s) ^ act(n, q, s),
    decreases p + q,
{
    lemma_xor64(p, q);
    lemma_act_unfold(n, p, s);
    lemma_act_unfold(n, q, s);
    lemma_act_unfold(n, p ^ q, s);
    let t = step(n, s);
    if p == 0 && q == 0 {
        lemma_xor32(0, 0, 0, 0);
    } else {
        lemma_act_sum(n, p / 2, q / 2, t);
        lemma_xor32(scaled(p % 2, s), act(n, p / 2, t), scaled(q % 2, s), act(n, q / 2, t));
        lemma_xor32(s, 0, 0, 0);
    }
}

/// A polynomial in the step commutes with the step.
pub proof fn lemma_act_commutes(n: u32, p: u64, s: u32)
    requires
        1 <= n <= 31,
    ensures
        act(n, p, step(n, s)) == step(n, act(n, p, s)),
    decreases p,
{
    if p == 0 {
        lemma_step_linear(n, 0, 0);
    } else {
        let t = step(n, s);
        lemma_act_commutes(n, p / 2, t);
        lemma_step_linear(n, scaled(p % 2, s), act(n, p / 2, t));
        lemma_step_linear(n, 0, 0);
    }
}

/// A polynomial in the step commutes with any number of steps.
pub proof fn lemma_act_commutes_iterate(n: u32, p: u64, s: u32, k: nat)
    requires
        1 <= n <= 31,
    ensures
        act(n, p, iterate(n, s, k)) == iterate(n, act(n, p, s), k),
    decreases k,
{
    if k > 0 {
        lemma_act_commutes_iterate(n, p, s, (k - 1) as nat);
        lemma_act_commutes(n, p, iterate(n, s, (k - 1) as nat));
    }
}

/// The product of a polynomial below `2^a` and one below `2^32` is below
/// `2^(a + 31)`.
pub proof fn lemma_clmul_bound(p: u64, q: u64, a: u64)
    requires
        a <= 32,
        p < 1u64 << a,
        q < 0x1_0000_0000,
    ensures
        a >= 1 ==> clmul(p, q) < 1u64 << ((a + 31) as u64),
        a == 0 ==> clmul(p, q) == 0,
        clmul(p, q) < 0x8000_0000_0000_0000,
    decreases a,
{
    lemma_halving(a, p);
    if a >= 1 {
        lemma_clmul_bound(p / 2, q, (a - 1) as u64);
        let r = clmul(p / 2, q);
        lemma_product_bound(a, q, r);
        lemma_product_bound(a, 0, r);
        lemma_xor64(r << 1, 0);
        if p == 0 {
            lemma_product_bound(a, 0, 0);
        }
    }
}

/// A product of polynomials, applied to a state, applies one factor after
/// the other.
pub proof fn lemma_act_product(n: u32, p: u64, q: u64, s: u32)
    requires
        1 <= n <= 31,
        p < 0x1_0000_0000,
        q < 0x1_0000_0000,
    ensures
        act(n, clmul(p, q), s) == act(n, p, act(n, q, s)),
    decreases p,
{
    if p != 0 {
        let r = clmul(p / 2, q);
        let head: u64 = if p % 2 == 1 { q } else { 0 };
        let v = act(n, q, s);
        assert(p / 2 < 1u64 << 31) by (bit_vector)
            requires
                p < 0x1_0000_0000,
        ;
        lemma_clmul_bound(p / 2, q, 31);
        assert(1u64 << 62 < 0x8000_0000_0000_0000) by (bit_vector);
        lemma_xor64(r, 0);
        lemma_act_sum(n, head, r << 1, s);
        lemma_act_unfold(n, r << 1, s);
        lemma_act_product(n, p / 2, q, step(n, s));
        lemma_act_commutes(n, q, s);
        lemma_xor32(act(n, r, step(n, s)), 0, 0, 0);
        assert(act(n, 0, s) == 0);
    }
}

} // verus!
