//! The registers of 13 to 15 bits: the state 1 has period `2^n - 1` exactly.

use crate::divisors::{lemma_product_push, product};
use crate::mls::{lemma_mask_facts, step};
use crate::mls_algebra::{act, clmul, iterate, lemma_step_is_step_bits, step_bits};
use crate::mls_orbit::{
    is_period, lemma_act_step, lemma_cycle_start, lemma_exact_period, lemma_power_moves,
    lemma_power_mul, lemma_power_one, power_is,
};
use crate::primes::{
    lemma_prime_127, lemma_prime_151, lemma_prime_3, lemma_prime_31, lemma_prime_43, lemma_prime_7,
    lemma_prime_8191,
};
use vstd::prelude::*;

verus! {

/// What bit arithmetic says of these registers: the first steps from the state 1,
/// and products of polynomials modulo the characteristic polynomial.
proof fn bit_facts()
    by (bit_vector)
    ensures
        step_bits(13, 0x1u32) == 0x2u32,
        step_bits(13, 0x2u32) == 0x4u32,
        step_bits(13, 0x4u32) == 0x8u32,
        step_bits(13, 0x8u32) == 0x10u32,
        step_bits(13, 0x10u32) == 0x20u32,
        step_bits(13, 0x20u32) == 0x40u32,
        step_bits(13, 0x40u32) == 0x80u32,
        step_bits(13, 0x80u32) == 0x100u32,
        step_bits(13, 0x100u32) == 0x201u32,
        step_bits(13, 0x201u32) == 0x403u32,
        step_bits(13, 0x403u32) == 0x806u32,
        step_bits(13, 0x806u32) == 0x100du32,
        step_bits(13, 0x100du32) == 0x1bu32,
        0x1bu32 ^ 0x0u32 == 0x1bu32,
        0x10u32 ^ 0x1bu32 == 0xbu32,
        0x8u32 ^ 0xbu32 == 0x3u32,
        0x2u32 ^ 0x3u32 == 0x1u32,
        0x1u32 ^ 0x1u32 == 0x0u32,
        clmul(0x2u64, 0x2u64) == clmul(0x0u64, 0x201bu64) ^ 0x4u64,
        clmul(0x4u64, 0x4u64) == clmul(0x0u64, 0x201bu64) ^ 0x10u64,
        clmul(0x10u64, 0x10u64) == clmul(0x0u64, 0x201bu64) ^ 0x100u64,
        clmul(0x100u64, 0x100u64) == clmul(0x8u64, 0x201bu64) ^ 0xd8u64,
        clmul(0xd8u64, 0xd8u64) == clmul(0x2u64, 0x201bu64) ^ 0x1176u64,
        clmul(0x1176u64, 0x1176u64) == clmul(0x80eu64, 0x201bu64) ^ 0xd96u64,
        clmul(0xd96u64, 0xd96u64) == clmul(0x28bu64, 0x201bu64) ^ 0x1a61u64,
        clmul(0x1a61u64, 0x1a61u64) == clmul(0xa27u64, 0x201bu64) ^ 0x1920u64,
        clmul(0x1920u64, 0x1920u64) == clmul(0xa0fu64, 0x201bu64) ^ 0xa99u64,
        clmul(0xa99u64, 0xa99u64) == clmul(0x223u64, 0x201bu64) ^ 0x140cu64,
        clmul(0x140cu64, 0x140cu64) == clmul(0x886u64, 0x201bu64) ^ 0x158au64,
        clmul(0x158au64, 0x158au64) == clmul(0x88cu64, 0x201bu64) ^ 0x1570u64,
        clmul(0x1570u64, 0x1570u64) == clmul(0x88eu64, 0x201bu64) ^ 0x2u64,
        clmul(0x1ff6u64, 0x2u64 ^ 1) == clmul(0x1u64, 0x201bu64) ^ 1,
        step_bits(14, 0x1u32) == 0x2u32,
        step_bits(14, 0x2u32) == 0x4u32,
        step_bits(14, 0x4u32) == 0x8u32,
        step_bits(14, 0x8u32) == 0x11u32,
        step_bits(14, 0x11u32) == 0x22u32,
        step_bits(14, 0x22u32) == 0x44u32,
        step_bits(14, 0x44u32) == 0x88u32,
        step_bits(14, 0x88u32) == 0x110u32,
        step_bits(14, 0x110u32) == 0x220u32,
        step_bits(14, 0x220u32) == 0x440u32,
        step_bits(14, 0x440u32) == 0x880u32,
        step_bits(14, 0x880u32) == 0x1101u32,
        step_bits(14, 0x1101u32) == 0x2203u32,
        step_bits(14, 0x2203u32) == 0x407u32,
        0x407u32 ^ 0x0u32 == 0x407u32,
        0x440u32 ^ 0x407u32 == 0x47u32,
        0x44u32 ^ 0x47u32 == 0x3u32,
        0x2u32 ^ 0x3u32 == 0x1u32,
        0x1u32 ^ 0x1u32 == 0x0u32,
        clmul(0x2u64, 0x2u64) == clmul(0x0u64, 0x4443u64) ^ 0x4u64,
        clmul(0x4u64, 0x4u64) == clmul(0x0u64, 0x4443u64) ^ 0x10u64,
        clmul(0x10u64, 0x10u64) == clmul(0x0u64, 0x4443u64) ^ 0x100u64,
        clmul(0x100u64, 0x100u64) == clmul(0x4u64, 0x4443u64) ^ 0x110cu64,
        clmul(0x110cu64, 0x110cu64) == clmul(0x444u64, 0x4443u64) ^ 0xd9cu64,
        clmul(0xd9cu64, 0xd9cu64) == clmul(0x151u64, 0x4443u64) ^ 0x12e3u64,
        clmul(0x12e3u64, 0x12e3u64) == clmul(0x450u64, 0x4443u64) ^ 0xcf5u64,
        clmul(0xcf5u64, 0xcf5u64) == clmul(0x155u64, 0x4443u64) ^ 0x17aeu64,
        clmul(0x17aeu64, 0x17aeu64) == clmul(0x410u64, 0x4443u64) ^ 0xc64u64,
        clmul(0xc64u64, 0xc64u64) == clmul(0x154u64, 0x4443u64) ^ 0x12ecu64,
        clmul(0x12ecu64, 0x12ecu64) == clmul(0x450u64, 0x4443u64) ^ 0xca0u64,
        clmul(0xca0u64, 0xca0u64) == clmul(0x155u64, 0x4443u64) ^ 0x6bfu64,
        clmul(0x6bfu64, 0x6bfu64) == clmul(0x54u64, 0x4443u64) ^ 0xa9u64,
        clmul(0xa9u64, 0xa9u64) == clmul(0x1u64, 0x4443u64) ^ 0x2u64,
        clmul(0x2u64, 0x10u64) == clmul(0x0u64, 0x4443u64) ^ 0x20u64,
        clmul(0x20u64, 0x110cu64) == clmul(0x8u64, 0x4443u64) ^ 0x398u64,
        clmul(0x398u64, 0x12e3u64) == clmul(0xf0u64, 0x4443u64) ^ 0x10b8u64,
        clmul(0x10b8u64, 0x17aeu64) == clmul(0x594u64, 0x4443u64) ^ 0x3eecu64,
        clmul(0x3eecu64, 0x12ecu64) == clmul(0xef5u64, 0x4443u64) ^ 0x3e0fu64,
        clmul(0x3e0fu64, 0x6bfu64) == clmul(0x25eu64, 0x4443u64) ^ 0x27a7u64,
        clmul(0x27a7u64, 0x27a7u64 ^ 1) == clmul(0x1151u64, 0x4443u64) ^ 1,
        clmul(0x2u64, 0x10u64) == clmul(0x0u64, 0x4443u64) ^ 0x20u64,
        clmul(0x20u64, 0x100u64) == clmul(0x0u64, 0x4443u64) ^ 0x2000u64,
        clmul(0x2000u64, 0x110cu64) == clmul(0x80eu64, 0x4443u64) ^ 0x2392u64,
        clmul(0x2392u64, 0xd9cu64) == clmul(0x6e4u64, 0x4443u64) ^ 0xad4u64,
        clmul(0xad4u64, 0x12e3u64) == clmul(0x2d6u64, 0x4443u64) ^ 0x1806u64,
        clmul(0x1806u64, 0x17aeu64) == clmul(0x76eu64, 0x4443u64) ^ 0xbd6u64,
        clmul(0x300du64, 0xbd6u64 ^ 1) == clmul(0x76eu64, 0x4443u64) ^ 1,
        clmul(0x2u64, 0xcf5u64) == clmul(0x0u64, 0x4443u64) ^ 0x19eau64,
        clmul(0xd51u64, 0x19eau64 ^ 1) == clmul(0x2f6u64, 0x4443u64) ^ 1,
        step_bits(15, 0x1u32) == 0x2u32,
        step_bits(15, 0x2u32) == 0x4u32,
        step_bits(15, 0x4u32) == 0x8u32,
        step_bits(15, 0x8u32) == 0x10u32,
        step_bits(15, 0x10u32) == 0x20u32,
        step_bits(15, 0x20u32) == 0x40u32,
        step_bits(15, 0x40u32) == 0x80u32,
        step_bits(15, 0x80u32) == 0x100u32,
        step_bits(15, 0x100u32) == 0x200u32,
        step_bits(15, 0x200u32) == 0x400u32,
        step_bits(15, 0x400u32) == 0x800u32,
        step_bits(15, 0x800u32) == 0x1000u32,
        step_bits(15, 0x1000u32) == 0x2000u32,
        step_bits(15, 0x2000u32) == 0x4001u32,
        step_bits(15, 0x4001u32) == 0x3u32,
        0x3u32 ^ 0x0u32 == 0x3u32,
        0x2u32 ^ 0x3u32 == 0x1u32,
        0x1u32 ^ 0x1u32 == 0x0u32,
        clmul(0x2u64, 0x2u64) == clmul(0x0u64, 0x8003u64) ^ 0x4u64,
        clmul(0x4u64, 0x4u64) == clmul(0x0u64, 0x8003u64) ^ 0x10u64,
        clmul(0x10u64, 0x10u64) == clmul(0x0u64, 0x8003u64) ^ 0x100u64,
        clmul(0x100u64, 0x100u64) == clmul(0x2u64, 0x8003u64) ^ 0x6u64,
        clmul(0x6u64, 0x6u64) == clmul(0x0u64, 0x8003u64) ^ 0x14u64,
        clmul(0x14u64, 0x14u64) == clmul(0x0u64, 0x8003u64) ^ 0x110u64,
        clmul(0x110u64, 0x110u64) == clmul(0x2u64, 0x8003u64) ^ 0x106u64,
        clmul(0x106u64, 0x106u64) == clmul(0x2u64, 0x8003u64) ^ 0x12u64,
        clmul(0x12u64, 0x12u64) == clmul(0x0u64, 0x8003u64) ^ 0x104u64,
        clmul(0x104u64, 0x104u64) == clmul(0x2u64, 0x8003u64) ^ 0x16u64,
        clmul(0x16u64, 0x16u64) == clmul(0x0u64, 0x8003u64) ^ 0x114u64,
        clmul(0x114u64, 0x114u64) == clmul(0x2u64, 0x8003u64) ^ 0x116u64,
        clmul(0x116u64, 0x116u64) == clmul(0x2u64, 0x8003u64) ^ 0x112u64,
        clmul(0x112u64, 0x112u64) == clmul(0x2u64, 0x8003u64) ^ 0x102u64,
        clmul(0x102u64, 0x102u64) == clmul(0x2u64, 0x8003u64) ^ 0x2u64,
        clmul(0x2u64, 0x100u64) == clmul(0x0u64, 0x8003u64) ^ 0x200u64,
        clmul(0x200u64, 0x110u64) == clmul(0x4u64, 0x8003u64) ^ 0x200cu64,
        clmul(0x200cu64, 0x104u64) == clmul(0x41u64, 0x8003u64) ^ 0xcf3u64,
        clmul(0xcf3u64, 0x116u64) == clmul(0x18u64, 0x8003u64) ^ 0x1632u64,
        clmul(0x154eu64, 0x1632u64 ^ 1) == clmul(0x251u64, 0x8003u64) ^ 1,
        clmul(0x2u64, 0x14u64) == clmul(0x0u64, 0x8003u64) ^ 0x28u64,
        clmul(0x28u64, 0x16u64) == clmul(0x0u64, 0x8003u64) ^ 0x270u64,
        clmul(0x13du64, 0x270u64 ^ 1) == clmul(0x4u64, 0x8003u64) ^ 1,
        clmul(0x2u64, 0x100u64) == clmul(0x0u64, 0x8003u64) ^ 0x200u64,
        clmul(0x200u64, 0x6u64) == clmul(0x0u64, 0x8003u64) ^ 0xc00u64,
        clmul(0xc00u64, 0x110u64) == clmul(0x19u64, 0x8003u64) ^ 0x402bu64,
        clmul(0x402bu64, 0x106u64) == clmul(0x83u64, 0x8003u64) ^ 0x2a7fu64,
        clmul(0x6495u64, 0x2a7fu64 ^ 1) == clmul(0x1eddu64, 0x8003u64) ^ 1,
{
}

/// The characteristic polynomial of the register of 13 bits takes the state 1
/// to 0.
proof fn lemma_annihilated_13()
    ensures
        act(13, 0x201bu64, 1) == 0,
{
    bit_facts();
    lemma_act_step(13, 0x1u64, 0x1bu32, step(13, 0x1bu32), 0);
    lemma_step_is_step_bits(13, 0x100du32);
    lemma_act_step(13, 0x2u64, 0x100du32, 0x1bu32, 0x1bu32);
    lemma_step_is_step_bits(13, 0x806u32);
    lemma_act_step(13, 0x4u64, 0x806u32, 0x100du32, 0x1bu32);
    lemma_step_is_step_bits(13, 0x403u32);
    lemma_act_step(13, 0x8u64, 0x403u32, 0x806u32, 0x1bu32);
    lemma_step_is_step_bits(13, 0x201u32);
    lemma_act_step(13, 0x10u64, 0x201u32, 0x403u32, 0x1bu32);
    lemma_step_is_step_bits(13, 0x100u32);
    lemma_act_step(13, 0x20u64, 0x100u32, 0x201u32, 0x1bu32);
    lemma_step_is_step_bits(13, 0x80u32);
    lemma_act_step(13, 0x40u64, 0x80u32, 0x100u32, 0x1bu32);
    lemma_step_is_step_bits(13, 0x40u32);
    lemma_act_step(13, 0x80u64, 0x40u32, 0x80u32, 0x1bu32);
    lemma_step_is_step_bits(13, 0x20u32);
    lemma_act_step(13, 0x100u64, 0x20u32, 0x40u32, 0x1bu32);
    lemma_step_is_step_bits(13, 0x10u32);
    lemma_act_step(13, 0x201u64, 0x10u32, 0x20u32, 0x1bu32);
    lemma_step_is_step_bits(13, 0x8u32);
    lemma_act_step(13, 0x403u64, 0x8u32, 0x10u32, 0xbu32);
    lemma_step_is_step_bits(13, 0x4u32);
    lemma_act_step(13, 0x806u64, 0x4u32, 0x8u32, 0x3u32);
    lemma_step_is_step_bits(13, 0x2u32);
    lemma_act_step(13, 0x100du64, 0x2u32, 0x4u32, 0x3u32);
    lemma_step_is_step_bits(13, 0x1u32);
    lemma_act_step(13, 0x201bu64, 0x1u32, 0x2u32, 0x1u32);
}

/// The polynomials that stand for 1, 2, 4, ... steps of the register of 13
/// bits.
proof fn lemma_squares_13()
    ensures
        power_is(13, 1, 0x2u64),
        power_is(13, 2, 0x4u64),
        power_is(13, 4, 0x10u64),
        power_is(13, 8, 0x100u64),
        power_is(13, 16, 0xd8u64),
        power_is(13, 32, 0x1176u64),
        power_is(13, 64, 0xd96u64),
        power_is(13, 128, 0x1a61u64),
        power_is(13, 256, 0x1920u64),
        power_is(13, 512, 0xa99u64),
        power_is(13, 1024, 0x140cu64),
        power_is(13, 2048, 0x158au64),
        power_is(13, 4096, 0x1570u64),
        power_is(13, 8192, 0x2u64),
{
    bit_facts();
    lemma_annihilated_13();
    lemma_power_one(13);
    lemma_power_mul(13, 0x201bu64, 1, 0x2u64, 1, 0x2u64, 0x0u64, 0x4u64);
    lemma_power_mul(13, 0x201bu64, 2, 0x4u64, 2, 0x4u64, 0x0u64, 0x10u64);
    lemma_power_mul(13, 0x201bu64, 4, 0x10u64, 4, 0x10u64, 0x0u64, 0x100u64);
    lemma_power_mul(13, 0x201bu64, 8, 0x100u64, 8, 0x100u64, 0x8u64, 0xd8u64);
    lemma_power_mul(13, 0x201bu64, 16, 0xd8u64, 16, 0xd8u64, 0x2u64, 0x1176u64);
    lemma_power_mul(13, 0x201bu64, 32, 0x1176u64, 32, 0x1176u64, 0x80eu64, 0xd96u64);
    lemma_power_mul(13, 0x201bu64, 64, 0xd96u64, 64, 0xd96u64, 0x28bu64, 0x1a61u64);
    lemma_power_mul(13, 0x201bu64, 128, 0x1a61u64, 128, 0x1a61u64, 0xa27u64, 0x1920u64);
    lemma_power_mul(13, 0x201bu64, 256, 0x1920u64, 256, 0x1920u64, 0xa0fu64, 0xa99u64);
    lemma_power_mul(13, 0x201bu64, 512, 0xa99u64, 512, 0xa99u64, 0x223u64, 0x140cu64);
    lemma_power_mul(13, 0x201bu64, 1024, 0x140cu64, 1024, 0x140cu64, 0x886u64, 0x158au64);
    lemma_power_mul(13, 0x201bu64, 2048, 0x158au64, 2048, 0x158au64, 0x88cu64, 0x1570u64);
    lemma_power_mul(13, 0x201bu64, 4096, 0x1570u64, 4096, 0x1570u64, 0x88eu64, 0x2u64);
}

/// One step does not take the state 1 of the register of 13 bits to itself.
proof fn lemma_moves_13_8191()
    ensures
        !is_period(13, 1, 1),
{
    bit_facts();
    lemma_annihilated_13();
    lemma_squares_13();
    lemma_power_moves(13, 0x201bu64, 1, 0x2u64, 0x1ff6u64, 0x1u64);
}

/// The state 1 of the register of 13 bits comes back after 8191 steps and
/// not before.
pub proof fn lemma_unit_period_13(k: nat)
    requires
        0 < k < 8191,
    ensures
        is_period(13, 1, 8191),
        !is_period(13, 1, k),
{
    lemma_squares_13();
    lemma_cycle_start(13, 1, 8192);
    lemma_moves_13_8191();
    lemma_prime_8191();
    let f0 = Seq::<nat>::empty();
    assert(product(f0) == 1);
    let f1 = f0.push(8191);
    lemma_product_push(f0, 8191);
    assert(product(f1) == 8191);
    let factors = f1;
    assert forall|j: int| 0 <= j < factors.len() implies !is_period(
        13,
        1,
        8191nat / #[trigger] factors[j],
    ) by {
        if j == 0 {
            assert(factors[0] == 8191);
            assert(8191nat / 8191nat == 1);
        }
    }
    lemma_mask_facts(13);
    lemma_exact_period(13, 1, 8191, factors, k);
}

/// The characteristic polynomial of the register of 14 bits takes the state 1
/// to 0.
proof fn lemma_annihilated_14()
    ensures
        act(14, 0x4443u64, 1) == 0,
{
    bit_facts();
    lemma_act_step(14, 0x1u64, 0x407u32, step(14, 0x407u32), 0);
    lemma_step_is_step_bits(14, 0x2203u32);
    lemma_act_step(14, 0x2u64, 0x2203u32, 0x407u32, 0x407u32);
    lemma_step_is_step_bits(14, 0x1101u32);
    lemma_act_step(14, 0x4u64, 0x1101u32, 0x2203u32, 0x407u32);
    lemma_step_is_step_bits(14, 0x880u32);
    lemma_act_step(14, 0x8u64, 0x880u32, 0x1101u32, 0x407u32);
    lemma_step_is_step_bits(14, 0x440u32);
    lemma_act_step(14, 0x11u64, 0x440u32, 0x880u32, 0x407u32);
    lemma_step_is_step_bits(14, 0x220u32);
    lemma_act_step(14, 0x22u64, 0x220u32, 0x440u32, 0x47u32);
    lemma_step_is_step_bits(14, 0x110u32);
    lemma_act_step(14, 0x44u64, 0x110u32, 0x220u32, 0x47u32);
    lemma_step_is_step_bits(14, 0x88u32);
    lemma_act_step(14, 0x88u64, 0x88u32, 0x110u32, 0x47u32);
    lemma_step_is_step_bits(14, 0x44u32);
    lemma_act_step(14, 0x111u64, 0x44u32, 0x88u32, 0x47u32);
    lemma_step_is_step_bits(14, 0x22u32);
    lemma_act_step(14, 0x222u64, 0x22u32, 0x44u32, 0x3u32);
    lemma_step_is_step_bits(14, 0x11u32);
    lemma_act_step(14, 0x444u64, 0x11u32, 0x22u32, 0x3u32);
    lemma_step_is_step_bits(14, 0x8u32);
    lemma_act_step(14, 0x888u64, 0x8u32, 0x11u32, 0x3u32);
    lemma_step_is_step_bits(14, 0x4u32);
    lemma_act_step(14, 0x1110u64, 0x4u32, 0x8u32, 0x3u32);
    lemma_step_is_step_bits(14, 0x2u32);
    lemma_act_step(14, 0x2221u64, 0x2u32, 0x4u32, 0x3u32);
    lemma_step_is_step_bits(14, 0x1u32);
    lemma_act_step(14, 0x4443u64, 0x1u32, 0x2u32, 0x1u32);
}

/// The polynomials that stand for 1, 2, 4, ... steps of the register of 14
/// bits.
proof fn lemma_squares_14()
    ensures
        power_is(14, 1, 0x2u64),
        power_is(14, 2, 0x4u64),
        power_is(14, 4, 0x10u64),
        power_is(14, 8, 0x100u64),
        power_is(14, 16, 0x110cu64),
        power_is(14, 32, 0xd9cu64),
        power_is(14, 64, 0x12e3u64),
        power_is(14, 128, 0xcf5u64),
        power_is(14, 256, 0x17aeu64),
        power_is(14, 512, 0xc64u64),
        power_is(14, 1024, 0x12ecu64),
        power_is(14, 2048, 0xca0u64),
        power_is(14, 4096, 0x6bfu64),
        power_is(14, 8192, 0xa9u64),
        power_is(14, 16384, 0x2u64),
{
    bit_facts();
    lemma_annihilated_14();
    lemma_power_one(14);
    lemma_power_mul(14, 0x4443u64, 1, 0x2u64, 1, 0x2u64, 0x0u64, 0x4u64);
    lemma_power_mul(14, 0x4443u64, 2, 0x4u64, 2, 0x4u64, 0x0u64, 0x10u64);
    lemma_power_mul(14, 0x4443u64, 4, 0x10u64, 4, 0x10u64, 0x0u64, 0x100u64);
    lemma_power_mul(14, 0x4443u64, 8, 0x100u64, 8, 0x100u64, 0x4u64, 0x110cu64);
    lemma_power_mul(14, 0x4443u64, 16, 0x110cu64, 16, 0x110cu64, 0x444u64, 0xd9cu64);
    lemma_power_mul(14, 0x4443u64, 32, 0xd9cu64, 32, 0xd9cu64, 0x151u64, 0x12e3u64);
    lemma_power_mul(14, 0x4443u64, 64, 0x12e3u64, 64, 0x12e3u64, 0x450u64, 0xcf5u64);
    lemma_power_mul(14, 0x4443u64, 128, 0xcf5u64, 128, 0xcf5u64, 0x155u64, 0x17aeu64);
    lemma_power_mul(14, 0x4443u64, 256, 0x17aeu64, 256, 0x17aeu64, 0x410u64, 0xc64u64);
    lemma_power_mul(14, 0x4443u64, 512, 0xc64u64, 512, 0xc64u64, 0x154u64, 0x12ecu64);
    lemma_power_mul(14, 0x4443u64, 1024, 0x12ecu64, 1024, 0x12ecu64, 0x450u64, 0xca0u64);
    lemma_power_mul(14, 0x4443u64, 2048, 0xca0u64, 2048, 0xca0u64, 0x155u64, 0x6bfu64);
    lemma_power_mul(14, 0x4443u64, 4096, 0x6bfu64, 4096, 0x6bfu64, 0x54u64, 0xa9u64);
    lemma_power_mul(14, 0x4443u64, 8192, 0xa9u64, 8192, 0xa9u64, 0x1u64, 0x2u64);
}

/// 5461 steps do not take the state 1 of the register of 14 bits to
/// itself.
proof fn lemma_moves_14_3()
    ensures
        !is_period(14, 1, 5461),
{
    bit_facts();
    lemma_annihilated_14();
    lemma_squares_14();
    lemma_power_mul(14, 0x4443u64, 1, 0x2u64, 4, 0x10u64, 0x0u64, 0x20u64);
    lemma_power_mul(14, 0x4443u64, 5, 0x20u64, 16, 0x110cu64, 0x8u64, 0x398u64);
    lemma_power_mul(14, 0x4443u64, 21, 0x398u64, 64, 0x12e3u64, 0xf0u64, 0x10b8u64);
    lemma_power_mul(14, 0x4443u64, 85, 0x10b8u64, 256, 0x17aeu64, 0x594u64, 0x3eecu64);
    lemma_power_mul(14, 0x4443u64, 341, 0x3eecu64, 1024, 0x12ecu64, 0xef5u64, 0x3e0fu64);
    lemma_power_mul(14, 0x4443u64, 1365, 0x3e0fu64, 4096, 0x6bfu64, 0x25eu64, 0x27a7u64);
    lemma_power_moves(14, 0x4443u64, 5461, 0x27a7u64, 0x27a7u64, 0x1151u64);
}

/// 381 steps do not take the state 1 of the register of 14 bits to
/// itself.
proof fn lemma_moves_14_43()
    ensures
        !is_period(14, 1, 381),
{
    bit_facts();
    lemma_annihilated_14();
    lemma_squares_14();
    lemma_power_mul(14, 0x4443u64, 1, 0x2u64, 4, 0x10u64, 0x0u64, 0x20u64);
    lemma_power_mul(14, 0x4443u64, 5, 0x20u64, 8, 0x100u64, 0x0u64, 0x2000u64);
    lemma_power_mul(14, 0x4443u64, 13, 0x2000u64, 16, 0x110cu64, 0x80eu64, 0x2392u64);
    lemma_power_mul(14, 0x4443u64, 29, 0x2392u64, 32, 0xd9cu64, 0x6e4u64, 0xad4u64);
    lemma_power_mul(14, 0x4443u64, 61, 0xad4u64, 64, 0x12e3u64, 0x2d6u64, 0x1806u64);
    lemma_power_mul(14, 0x4443u64, 125, 0x1806u64, 256, 0x17aeu64, 0x76eu64, 0xbd6u64);
    lemma_power_moves(14, 0x4443u64, 381, 0xbd6u64, 0x300du64, 0x76eu64);
}

/// 129 steps do not take the state 1 of the register of 14 bits to
/// itself.
proof fn lemma_moves_14_127()
    ensures
        !is_period(14, 1, 129),
{
    bit_facts();
    lemma_annihilated_14();
    lemma_squares_14();
    lemma_power_mul(14, 0x4443u64, 1, 0x2u64, 128, 0xcf5u64, 0x0u64, 0x19eau64);
    lemma_power_moves(14, 0x4443u64, 129, 0x19eau64, 0xd51u64, 0x2f6u64);
}

/// The state 1 of the register of 14 bits comes back after 16383 steps and
/// not before.
pub proof fn lemma_unit_period_14(k: nat)
    requires
        0 < k < 16383,
    ensures
        is_period(14, 1, 16383),
        !is_period(14, 1, k),
{
    lemma_squares_14();
    lemma_cycle_start(14, 1, 16384);
    lemma_moves_14_3();
    lemma_prime_3();
    lemma_moves_14_43();
    lemma_prime_43();
    lemma_moves_14_127();
    lemma_prime_127();
    let f0 = Seq::<nat>::empty();
    assert(product(f0) == 1);
    let f1 = f0.push(3);
    lemma_product_push(f0, 3);
    assert(product(f1) == 3);
    let f2 = f1.push(43);
    lemma_product_push(f1, 43);
    assert(product(f2) == 129);
    let f3 = f2.push(127);
    lemma_product_push(f2, 127);
    assert(product(f3) == 16383);
    let factors = f3;
    assert forall|j: int| 0 <= j < factors.len() implies !is_period(
        14,
        1,
        16383nat / #[trigger] factors[j],
    ) by {
        if j == 0 {
            assert(factors[0] == 3);
            assert(16383nat / 3nat == 5461);
        }
        if j == 1 {
            assert(factors[1] == 43);
            assert(16383nat / 43nat == 381);
        }
        if j == 2 {
            assert(factors[2] == 127);
            assert(16383nat / 127nat == 129);
        }
    }
    lemma_mask_facts(14);
    lemma_exact_period(14, 1, 16383, factors, k);
}

/// The characteristic polynomial of the register of 15 bits takes the state 1
/// to 0.
proof fn lemma_annihilated_15()
    ensures
        act(15, 0x8003u64, 1) == 0,
{
    bit_facts();
    lemma_act_step(15, 0x1u64, 0x3u32, step(15, 0x3u32), 0);
    lemma_step_is_step_bits(15, 0x4001u32);
    lemma_act_step(15, 0x2u64, 0x4001u32, 0x3u32, 0x3u32);
    lemma_step_is_step_bits(15, 0x2000u32);
    lemma_act_step(15, 0x4u64, 0x2000u32, 0x4001u32, 0x3u32);
    lemma_step_is_step_bits(15, 0x1000u32);
    lemma_act_step(15, 0x8u64, 0x1000u32, 0x2000u32, 0x3u32);
    lemma_step_is_step_bits(15, 0x800u32);
    lemma_act_step(15, 0x10u64, 0x800u32, 0x1000u32, 0x3u32);
    lemma_step_is_step_bits(15, 0x400u32);
    lemma_act_step(15, 0x20u64, 0x400u32, 0x800u32, 0x3u32);
    lemma_step_is_step_bits(15, 0x200u32);
    lemma_act_step(15, 0x40u64, 0x200u32, 0x400u32, 0x3u32);
    lemma_step_is_step_bits(15, 0x100u32);
    lemma_act_step(15, 0x80u64, 0x100u32, 0x200u32, 0x3u32);
    lemma_step_is_step_bits(15, 0x80u32);
    lemma_act_step(15, 0x100u64, 0x80u32, 0x100u32, 0x3u32);
    lemma_step_is_step_bits(15, 0x40u32);
    lemma_act_step(15, 0x200u64, 0x40u32, 0x80u32, 0x3u32);
    lemma_step_is_step_bits(15, 0x20u32);
    lemma_act_step(15, 0x400u64, 0x20u32, 0x40u32, 0x3u32);
    lemma_step_is_step_bits(15, 0x10u32);
    lemma_act_step(15, 0x800u64, 0x10u32, 0x20u32, 0x3u32);
    lemma_step_is_step_bits(15, 0x8u32);
    lemma_act_step(15, 0x1000u64, 0x8u32, 0x10u32, 0x3u32);
    lemma_step_is_step_bits(15, 0x4u32);
    lemma_act_step(15, 0x2000u64, 0x4u32, 0x8u32, 0x3u32);
    lemma_step_is_step_bits(15, 0x2u32);
    lemma_act_step(15, 0x4001u64, 0x2u32, 0x4u32, 0x3u32);
    lemma_step_is_step_bits(15, 0x1u32);
    lemma_act_step(15, 0x8003u64, 0x1u32, 0x2u32, 0x1u32);
}

/// The polynomials that stand for 1, 2, 4, ... steps of the register of 15
/// bits.
proof fn lemma_squares_15()
    ensures
        power_is(15, 1, 0x2u64),
        power_is(15, 2, 0x4u64),
        power_is(15, 4, 0x10u64),
        power_is(15, 8, 0x100u64),
        power_is(15, 16, 0x6u64),
        power_is(15, 32, 0x14u64),
        power_is(15, 64, 0x110u64),
        power_is(15, 128, 0x106u64),
        power_is(15, 256, 0x12u64),
        power_is(15, 512, 0x104u64),
        power_is(15, 1024, 0x16u64),
        power_is(15, 2048, 0x114u64),
        power_is(15, 4096, 0x116u64),
        power_is(15, 8192, 0x112u64),
        power_is(15, 16384, 0x102u64),
        power_is(15, 32768, 0x2u64),
{
    bit_facts();
    lemma_annihilated_15();
    lemma_power_one(15);
    lemma_power_mul(15, 0x8003u64, 1, 0x2u64, 1, 0x2u64, 0x0u64, 0x4u64);
    lemma_power_mul(15, 0x8003u64, 2, 0x4u64, 2, 0x4u64, 0x0u64, 0x10u64);
    lemma_power_mul(15, 0x8003u64, 4, 0x10u64, 4, 0x10u64, 0x0u64, 0x100u64);
    lemma_power_mul(15, 0x8003u64, 8, 0x100u64, 8, 0x100u64, 0x2u64, 0x6u64);
    lemma_power_mul(15, 0x8003u64, 16, 0x6u64, 16, 0x6u64, 0x0u64, 0x14u64);
    lemma_power_mul(15, 0x8003u64, 32, 0x14u64, 32, 0x14u64, 0x0u64, 0x110u64);
    lemma_power_mul(15, 0x8003u64, 64, 0x110u64, 64, 0x110u64, 0x2u64, 0x106u64);
    lemma_power_mul(15, 0x8003u64, 128, 0x106u64, 128, 0x106u64, 0x2u64, 0x12u64);
    lemma_power_mul(15, 0x8003u64, 256, 0x12u64, 256, 0x12u64, 0x0u64, 0x104u64);
    lemma_power_mul(15, 0x8003u64, 512, 0x104u64, 512, 0x104u64, 0x2u64, 0x16u64);
    lemma_power_mul(15, 0x8003u64, 1024, 0x16u64, 1024, 0x16u64, 0x0u64, 0x114u64);
    lemma_power_mul(15, 0x8003u64, 2048, 0x114u64, 2048, 0x114u64, 0x2u64, 0x116u64);
    lemma_power_mul(15, 0x8003u64, 4096, 0x116u64, 4096, 0x116u64, 0x2u64, 0x112u64);
    lemma_power_mul(15, 0x8003u64, 8192, 0x112u64, 8192, 0x112u64, 0x2u64, 0x102u64);
    lemma_power_mul(15, 0x8003u64, 16384, 0x102u64, 16384, 0x102u64, 0x2u64, 0x2u64);
}

/// 4681 steps do not take the state 1 of the register of 15 bits to
/// itself.
proof fn lemma_moves_15_7()
    ensures
        !is_period(15, 1, 4681),
{
    bit_facts();
    lemma_annihilated_15();
    lemma_squares_15();
    lemma_power_mul(15, 0x8003u64, 1, 0x2u64, 8, 0x100u64, 0x0u64, 0x200u64);
    lemma_power_mul(15, 0x8003u64, 9, 0x200u64, 64, 0x110u64, 0x4u64, 0x200cu64);
    lemma_power_mul(15, 0x8003u64, 73, 0x200cu64, 512, 0x104u64, 0x41u64, 0xcf3u64);
    lemma_power_mul(15, 0x8003u64, 585, 0xcf3u64, 4096, 0x116u64, 0x18u64, 0x1632u64);
    lemma_power_moves(15, 0x8003u64, 4681, 0x1632u64, 0x154eu64, 0x251u64);
}

/// 1057 steps do not take the state 1 of the register of 15 bits to
/// itself.
proof fn lemma_moves_15_31()
    ensures
        !is_period(15, 1, 1057),
{
    bit_facts();
    lemma_annihilated_15();
    lemma_squares_15();
    lemma_power_mul(15, 0x8003u64, 1, 0x2u64, 32, 0x14u64, 0x0u64, 0x28u64);
    lemma_power_mul(15, 0x8003u64, 33, 0x28u64, 1024, 0x16u64, 0x0u64, 0x270u64);
    lemma_power_moves(15, 0x8003u64, 1057, 0x270u64, 0x13du64, 0x4u64);
}

/// 217 steps do not take the state 1 of the register of 15 bits to
/// itself.
proof fn lemma_moves_15_151()
    ensures
        !is_period(15, 1, 217),
{
    bit_facts();
    lemma_annihilated_15();
    lemma_squares_15();
    lemma_power_mul(15, 0x8003u64, 1, 0x2u64, 8, 0x100u64, 0x0u64, 0x200u64);
    lemma_power_mul(15, 0x8003u64, 9, 0x200u64, 16, 0x6u64, 0x0u64, 0xc00u64);
    lemma_power_mul(15, 0x8003u64, 25, 0xc00u64, 64, 0x110u64, 0x19u64, 0x402bu64);
    lemma_power_mul(15, 0x8003u64, 89, 0x402bu64, 128, 0x106u64, 0x83u64, 0x2a7fu64);
    lemma_power_moves(15, 0x8003u64, 217, 0x2a7fu64, 0x6495u64, 0x1eddu64);
}

/// The state 1 of the register of 15 bits comes back after 32767 steps and
/// not before.
pub proof fn lemma_unit_period_15(k: nat)
    requires
        0 < k < 32767,
    ensures
        is_period(15, 1, 32767),
        !is_period(15, 1, k),
{
    lemma_squares_15();
    lemma_cycle_start(15, 1, 32768);
    lemma_moves_15_7();
    lemma_prime_7();
    lemma_moves_15_31();
    lemma_prime_31();
    lemma_moves_15_151();
    lemma_prime_151();
    let f0 = Seq::<nat>::empty();
    assert(product(f0) == 1);
    let f1 = f0.push(7);
    lemma_product_push(f0, 7);
    assert(product(f1) == 7);
    let f2 = f1.push(31);
    lemma_product_push(f1, 31);
    assert(product(f2) == 217);
    let f3 = f2.push(151);
    lemma_product_push(f2, 151);
    assert(product(f3) == 32767);
    let factors = f3;
    assert forall|j: int| 0 <= j < factors.len() implies !is_period(
        15,
        1,
        32767nat / #[trigger] factors[j],
    ) by {
        if j == 0 {
            assert(factors[0] == 7);
            assert(32767nat / 7nat == 4681);
        }
        if j == 1 {
            assert(factors[1] == 31);
            assert(32767nat / 31nat == 1057);
        }
        if j == 2 {
            assert(factors[2] == 151);
            assert(32767nat / 151nat == 217);
        }
    }
    lemma_mask_facts(15);
    lemma_exact_period(15, 1, 32767, factors, k);
}

} // verus!
