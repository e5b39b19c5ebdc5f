//! The register of 31 bits: the state 1 has period `2^31 - 1` exactly.

use crate::divisors::{lemma_product_push, product};
use crate::mls::{lemma_mask_facts, step};
use crate::mls_algebra::{act, clmul, iterate, lemma_step_is_step_bits, step_bits};
use crate::mls_orbit::{
    is_period, lemma_act_step, lemma_cycle_start, lemma_exact_period, lemma_power_moves,
    lemma_power_mul, lemma_power_one, power_is,
};
use crate::primes::lemma_prime_2147483647;
use vstd::prelude::*;

verus! {

/// What bit arithmetic says of this register: the first steps from the state 1,
/// and products of polynomials modulo the characteristic polynomial.
proof fn bit_facts()
    by (bit_vector)
    ensures
        step_bits(31, 0x1u32) == 0x2u32,
        step_bits(31, 0x2u32) == 0x4u32,
        step_bits(31, 0x4u32) == 0x8u32,
        step_bits(31, 0x8u32) == 0x10u32,
        step_bits(31, 0x10u32) == 0x20u32,
        step_bits(31, 0x20u32) == 0x40u32,
        step_bits(31, 0x40u32) == 0x80u32,
        step_bits(31, 0x80u32) == 0x100u32,
        step_bits(31, 0x100u32) == 0x200u32,
        step_bits(31, 0x200u32) == 0x400u32,
        step_bits(31, 0x400u32) == 0x800u32,
        step_bits(31, 0x800u32) == 0x1000u32,
        step_bits(31, 0x1000u32) == 0x2000u32,
        step_bits(31, 0x2000u32) == 0x4000u32,
        step_bits(31, 0x4000u32) == 0x8000u32,
        step_bits(31, 0x8000u32) == 0x10000u32,
        step_bits(31, 0x10000u32) == 0x20000u32,
        step_bits(31, 0x20000u32) == 0x40000u32,
        step_bits(31, 0x40000u32) == 0x80000u32,
        step_bits(31, 0x80000u32) == 0x100000u32,
        step_bits(31, 0x100000u32) == 0x200000u32,
        step_bits(31, 0x200000u32) == 0x400000u32,
        step_bits(31, 0x400000u32) == 0x800000u32,
        step_bits(31, 0x800000u32) == 0x1000000u32,
        step_bits(31, 0x1000000u32) == 0x2000000u32,
        step_bits(31, 0x2000000u32) == 0x4000000u32,
        step_bits(31, 0x4000000u32) == 0x8000000u32,
        step_bits(31, 0x8000000u32) == 0x10000001u32,
        step_bits(31, 0x10000001u32) == 0x20000002u32,
        step_bits(31, 0x20000002u32) == 0x40000004u32,
        step_bits(31, 0x40000004u32) == 0x9u32,
        0x9u32 ^ 0x0u32 == 0x9u32,
        0x8u32 ^ 0x9u32 == 0x1u32,
        0x1u32 ^ 0x1u32 == 0x0u32,
        clmul(0x2u64, 0x2u64) == clmul(0x0u64, 0x80000009u64) ^ 0x4u64,
        clmul(0x4u64, 0x4u64) == clmul(0x0u64, 0x80000009u64) ^ 0x10u64,
        clmul(0x10u64, 0x10u64) == clmul(0x0u64, 0x80000009u64) ^ 0x100u64,
        clmul(0x100u64, 0x100u64) == clmul(0x0u64, 0x80000009u64) ^ 0x10000u64,
        clmul(0x10000u64, 0x10000u64) == clmul(0x2u64, 0x80000009u64) ^ 0x12u64,
        clmul(0x12u64, 0x12u64) == clmul(0x0u64, 0x80000009u64) ^ 0x104u64,
        clmul(0x104u64, 0x104u64) == clmul(0x0u64, 0x80000009u64) ^ 0x10010u64,
        clmul(0x10010u64, 0x10010u64) == clmul(0x2u64, 0x80000009u64) ^ 0x112u64,
        clmul(0x112u64, 0x112u64) == clmul(0x0u64, 0x80000009u64) ^ 0x10104u64,
        clmul(0x10104u64, 0x10104u64) == clmul(0x2u64, 0x80000009u64) ^ 0x10002u64,
        clmul(0x10002u64, 0x10002u64) == clmul(0x2u64, 0x80000009u64) ^ 0x16u64,
        clmul(0x16u64, 0x16u64) == clmul(0x0u64, 0x80000009u64) ^ 0x114u64,
        clmul(0x114u64, 0x114u64) == clmul(0x0u64, 0x80000009u64) ^ 0x10110u64,
        clmul(0x10110u64, 0x10110u64) == clmul(0x2u64, 0x80000009u64) ^ 0x10112u64,
        clmul(0x10112u64, 0x10112u64) == clmul(0x2u64, 0x80000009u64) ^ 0x10116u64,
        clmul(0x10116u64, 0x10116u64) == clmul(0x2u64, 0x80000009u64) ^ 0x10106u64,
        clmul(0x10106u64, 0x10106u64) == clmul(0x2u64, 0x80000009u64) ^ 0x10006u64,
        clmul(0x10006u64, 0x10006u64) == clmul(0x2u64, 0x80000009u64) ^ 0x6u64,
        clmul(0x6u64, 0x6u64) == clmul(0x0u64, 0x80000009u64) ^ 0x14u64,
        clmul(0x14u64, 0x14u64) == clmul(0x0u64, 0x80000009u64) ^ 0x110u64,
        clmul(0x110u64, 0x110u64) == clmul(0x0u64, 0x80000009u64) ^ 0x10100u64,
        clmul(0x10100u64, 0x10100u64) == clmul(0x2u64, 0x80000009u64) ^ 0x10012u64,
        clmul(0x10012u64, 0x10012u64) == clmul(0x2u64, 0x80000009u64) ^ 0x116u64,
        clmul(0x116u64, 0x116u64) == clmul(0x0u64, 0x80000009u64) ^ 0x10114u64,
        clmul(0x10114u64, 0x10114u64) == clmul(0x2u64, 0x80000009u64) ^ 0x10102u64,
        clmul(0x10102u64, 0x10102u64) == clmul(0x2u64, 0x80000009u64) ^ 0x10016u64,
        clmul(0x10016u64, 0x10016u64) == clmul(0x2u64, 0x80000009u64) ^ 0x106u64,
        clmul(0x106u64, 0x106u64) == clmul(0x0u64, 0x80000009u64) ^ 0x10014u64,
        clmul(0x10014u64, 0x10014u64) == clmul(0x2u64, 0x80000009u64) ^ 0x102u64,
        clmul(0x102u64, 0x102u64) == clmul(0x0u64, 0x80000009u64) ^ 0x10004u64,
        clmul(0x10004u64, 0x10004u64) == clmul(0x2u64, 0x80000009u64) ^ 0x2u64,
        clmul(0x7ffffff8u64, 0x2u64 ^ 1) == clmul(0x1u64, 0x80000009u64) ^ 1,
{
}

/// The characteristic polynomial of the register of 31 bits takes the state 1
/// to 0.
proof fn lemma_annihilated_31()
    ensures
        act(31, 0x80000009u64, 1) == 0,
{
    bit_facts();
    lemma_act_step(31, 0x1u64, 0x9u32, step(31, 0x9u32), 0);
    lemma_step_is_step_bits(31, 0x40000004u32);
    lemma_act_step(31, 0x2u64, 0x40000004u32, 0x9u32, 0x9u32);
    lemma_step_is_step_bits(31, 0x20000002u32);
    lemma_act_step(31, 0x4u64, 0x20000002u32, 0x40000004u32, 0x9u32);
    lemma_step_is_step_bits(31, 0x10000001u32);
    lemma_act_step(31, 0x8u64, 0x10000001u32, 0x20000002u32, 0x9u32);
    lemma_step_is_step_bits(31, 0x8000000u32);
    lemma_act_step(31, 0x10u64, 0x8000000u32, 0x10000001u32, 0x9u32);
    lemma_step_is_step_bits(31, 0x4000000u32);
    lemma_act_step(31, 0x20u64, 0x4000000u32, 0x8000000u32, 0x9u32);
    lemma_step_is_step_bits(31, 0x2000000u32);
    lemma_act_step(31, 0x40u64, 0x2000000u32, 0x4000000u32, 0x9u32);
    lemma_step_is_step_bits(31, 0x1000000u32);
    lemma_act_step(31, 0x80u64, 0x1000000u32, 0x2000000u32, 0x9u32);
    lemma_step_is_step_bits(31, 0x800000u32);
    lemma_act_step(31, 0x100u64, 0x800000u32, 0x1000000u32, 0x9u32);
    lemma_step_is_step_bits(31, 0x400000u32);
    lemma_act_step(31, 0x200u64, 0x400000u32, 0x800000u32, 0x9u32);
    lemma_step_is_step_bits(31, 0x200000u32);
    lemma_act_step(31, 0x400u64, 0x200000u32, 0x400000u32, 0x9u32);
    lemma_step_is_step_bits(31, 0x100000u32);
    lemma_act_step(31, 0x800u64, 0x100000u32, 0x200000u32, 0x9u32);
    lemma_step_is_step_bits(31, 0x80000u32);
    lemma_act_step(31, 0x1000u64, 0x80000u32, 0x100000u32, 0x9u32);
    lemma_step_is_step_bits(31, 0x40000u32);
    lemma_act_step(31, 0x2000u64, 0x40000u32, 0x80000u32, 0x9u32);
    lemma_step_is_step_bits(31, 0x20000u32);
    lemma_act_step(31, 0x4000u64, 0x20000u32, 0x40000u32, 0x9u32);
    lemma_step_is_step_bits(31, 0x10000u32);
    lemma_act_step(31, 0x8000u64, 0x10000u32, 0x20000u32, 0x9u32);
    lemma_step_is_step_bits(31, 0x8000u32);
    lemma_act_step(31, 0x10000u64, 0x8000u32, 0x10000u32, 0x9u32);
    lemma_step_is_step_bits(31, 0x4000u32);
    lemma_act_step(31, 0x20000u64, 0x4000u32, 0x8000u32, 0x9u32);
    lemma_step_is_step_bits(31, 0x2000u32);
    lemma_act_step(31, 0x40000u64, 0x2000u32, 0x4000u32, 0x9u32);
    lemma_step_is_step_bits(31, 0x1000u32);
    lemma_act_step(31, 0x80000u64, 0x1000u32, 0x2000u32, 0x9u32);
    lemma_step_is_step_bits(31, 0x800u32);
    lemma_act_step(31, 0x100000u64, 0x800u32, 0x1000u32, 0x9u32);
    lemma_step_is_step_bits(31, 0x400u32);
    lemma_act_step(31, 0x200000u64, 0x400u32, 0x800u32, 0x9u32);
    lemma_step_is_step_bits(31, 0x200u32);
    lemma_act_step(31, 0x400000u64, 0x200u32, 0x400u32, 0x9u32);
    lemma_step_is_step_bits(31, 0x100u32);
    lemma_act_step(31, 0x800000u64, 0x100u32, 0x200u32, 0x9u32);
    lemma_step_is_step_bits(31, 0x80u32);
    lemma_act_step(31, 0x1000000u64, 0x80u32, 0x100u32, 0x9u32);
    lemma_step_is_step_bits(31, 0x40u32);
    lemma_act_step(31, 0x2000000u64, 0x40u32, 0x80u32, 0x9u32);
    lemma_step_is_step_bits(31, 0x20u32);
    lemma_act_step(31, 0x4000000u64, 0x20u32, 0x40u32, 0x9u32);
    lemma_step_is_step_bits(31, 0x10u32);
    lemma_act_step(31, 0x8000000u64, 0x10u32, 0x20u32, 0x9u32);
    lemma_step_is_step_bits(31, 0x8u32);
    lemma_act_step(31, 0x10000001u64, 0x8u32, 0x10u32, 0x9u32);
    lemma_step_is_step_bits(31, 0x4u32);
    lemma_act_step(31, 0x20000002u64, 0x4u32, 0x8u32, 0x1u32);
    lemma_step_is_step_bits(31, 0x2u32);
    lemma_act_step(31, 0x40000004u64, 0x2u32, 0x4u32, 0x1u32);
    lemma_step_is_step_bits(31, 0x1u32);
    lemma_act_step(31, 0x80000009u64, 0x1u32, 0x2u32, 0x1u32);
}

/// The polynomials that stand for 1, 2, 4, ... steps of the register of 31
/// bits.
proof fn lemma_squares_31()
    ensures
        power_is(31, 1, 0x2u64),
        power_is(31, 2, 0x4u64),
        power_is(31, 4, 0x10u64),
        power_is(31, 8, 0x100u64),
        power_is(31, 16, 0x10000u64),
        power_is(31, 32, 0x12u64),
        power_is(31, 64, 0x104u64),
        power_is(31, 128, 0x10010u64),
        power_is(31, 256, 0x112u64),
        power_is(31, 512, 0x10104u64),
        power_is(31, 1024, 0x10002u64),
        power_is(31, 2048, 0x16u64),
        power_is(31, 4096, 0x114u64),
        power_is(31, 8192, 0x10110u64),
        power_is(31, 16384, 0x10112u64),
        power_is(31, 32768, 0x10116u64),
        power_is(31, 65536, 0x10106u64),
        power_is(31, 131072, 0x10006u64),
        power_is(31, 262144, 0x6u64),
        power_is(31, 524288, 0x14u64),
        power_is(31, 1048576, 0x110u64),
        power_is(31, 2097152, 0x10100u64),
        power_is(31, 4194304, 0x10012u64),
        power_is(31, 8388608, 0x116u64),
        power_is(31, 16777216, 0x10114u64),
        power_is(31, 33554432, 0x10102u64),
        power_is(31, 67108864, 0x10016u64),
        power_is(31, 134217728, 0x106u64),
        power_is(31, 268435456, 0x10014u64),
        power_is(31, 536870912, 0x102u64),
        power_is(31, 1073741824, 0x10004u64),
        power_is(31, 2147483648, 0x2u64),
{
    bit_facts();
    lemma_annihilated_31();
    lemma_power_one(31);
    lemma_power_mul(31, 0x80000009u64, 1, 0x2u64, 1, 0x2u64, 0x0u64, 0x4u64);
    lemma_power_mul(31, 0x80000009u64, 2, 0x4u64, 2, 0x4u64, 0x0u64, 0x10u64);
    lemma_power_mul(31, 0x80000009u64, 4, 0x10u64, 4, 0x10u64, 0x0u64, 0x100u64);
    lemma_power_mul(31, 0x80000009u64, 8, 0x100u64, 8, 0x100u64, 0x0u64, 0x10000u64);
    lemma_power_mul(31, 0x80000009u64, 16, 0x10000u64, 16, 0x10000u64, 0x2u64, 0x12u64);
    lemma_power_mul(31, 0x80000009u64, 32, 0x12u64, 32, 0x12u64, 0x0u64, 0x104u64);
    lemma_power_mul(31, 0x80000009u64, 64, 0x104u64, 64, 0x104u64, 0x0u64, 0x10010u64);
    lemma_power_mul(31, 0x80000009u64, 128, 0x10010u64, 128, 0x10010u64, 0x2u64, 0x112u64);
    lemma_power_mul(31, 0x80000009u64, 256, 0x112u64, 256, 0x112u64, 0x0u64, 0x10104u64);
    lemma_power_mul(31, 0x80000009u64, 512, 0x10104u64, 512, 0x10104u64, 0x2u64, 0x10002u64);
    lemma_power_mul(31, 0x80000009u64, 1024, 0x10002u64, 1024, 0x10002u64, 0x2u64, 0x16u64);
    lemma_power_mul(31, 0x80000009u64, 2048, 0x16u64, 2048, 0x16u64, 0x0u64, 0x114u64);
    lemma_power_mul(31, 0x80000009u64, 4096, 0x114u64, 4096, 0x114u64, 0x0u64, 0x10110u64);
    lemma_power_mul(31, 0x80000009u64, 8192, 0x10110u64, 8192, 0x10110u64, 0x2u64, 0x10112u64);
    lemma_power_mul(31, 0x80000009u64, 16384, 0x10112u64, 16384, 0x10112u64, 0x2u64, 0x10116u64);
    lemma_power_mul(31, 0x80000009u64, 32768, 0x10116u64, 32768, 0x10116u64, 0x2u64, 0x10106u64);
    lemma_power_mul(31, 0x80000009u64, 65536, 0x10106u64, 65536, 0x10106u64, 0x2u64, 0x10006u64);
    lemma_power_mul(31, 0x80000009u64, 131072, 0x10006u64, 131072, 0x10006u64, 0x2u64, 0x6u64);
    lemma_power_mul(31, 0x80000009u64, 262144, 0x6u64, 262144, 0x6u64, 0x0u64, 0x14u64);
    lemma_power_mul(31, 0x80000009u64, 524288, 0x14u64, 524288, 0x14u64, 0x0u64, 0x110u64);
    lemma_power_mul(31, 0x80000009u64, 1048576, 0x110u64, 1048576, 0x110u64, 0x0u64, 0x10100u64);
    lemma_power_mul(31, 0x80000009u64, 2097152, 0x10100u64, 2097152, 0x10100u64, 0x2u64, 0x10012u64);
    lemma_power_mul(31, 0x80000009u64, 4194304, 0x10012u64, 4194304, 0x10012u64, 0x2u64, 0x116u64);
    lemma_power_mul(31, 0x80000009u64, 8388608, 0x116u64, 8388608, 0x116u64, 0x0u64, 0x10114u64);
    lemma_power_mul(31, 0x80000009u64, 16777216, 0x10114u64, 16777216, 0x10114u64, 0x2u64, 0x10102u64);
    lemma_power_mul(31, 0x80000009u64, 33554432, 0x10102u64, 33554432, 0x10102u64, 0x2u64, 0x10016u64);
    lemma_power_mul(31, 0x80000009u64, 67108864, 0x10016u64, 67108864, 0x10016u64, 0x2u64, 0x106u64);
    lemma_power_mul(31, 0x80000009u64, 134217728, 0x106u64, 134217728, 0x106u64, 0x0u64, 0x10014u64);
    lemma_power_mul(31, 0x80000009u64, 268435456, 0x10014u64, 268435456, 0x10014u64, 0x2u64, 0x102u64);
    lemma_power_mul(31, 0x80000009u64, 536870912, 0x102u64, 536870912, 0x102u64, 0x0u64, 0x10004u64);
    lemma_power_mul(31, 0x80000009u64, 1073741824, 0x10004u64, 1073741824, 0x10004u64, 0x2u64, 0x2u64);
}

/// One step does not take the state 1 of the register of 31 bits to itself.
proof fn lemma_moves_31_2147483647()
    ensures
        !is_period(31, 1, 1),
{
    bit_facts();
    lemma_annihilated_31();
    lemma_squares_31();
    lemma_power_moves(31, 0x80000009u64, 1, 0x2u64, 0x7ffffff8u64, 0x1u64);
}

/// The state 1 of the register of 31 bits comes back after 2147483647 steps and
/// not before.
pub proof fn lemma_unit_period_31(k: nat)
    requires
        0 < k < 2147483647,
    ensures
        is_period(31, 1, 2147483647),
        !is_period(31, 1, k),
{
    lemma_squares_31();
    lemma_cycle_start(31, 1, 2147483648);
    lemma_moves_31_2147483647();
    lemma_prime_2147483647();
    let f0 = Seq::<nat>::empty();
    assert(product(f0) == 1);
    let f1 = f0.push(2147483647);
    lemma_product_push(f0, 2147483647);
    assert(product(f1) == 2147483647);
    let factors = f1;
    assert forall|j: int| 0 <= j < factors.len() implies !is_period(
        31,
        1,
        2147483647nat / #[trigger] factors[j],
    ) by {
        if j == 0 {
            assert(factors[0] == 2147483647);
            assert(2147483647nat / 2147483647nat == 1);
        }
    }
    lemma_mask_facts(31);
    lemma_exact_period(31, 1, 2147483647, factors, k);
}

} // verus!
