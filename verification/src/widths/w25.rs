//! The register of 25 bits: the state 1 has period `2^25 - 1` exactly.

use crate::divisors::{lemma_product_push, product};
use crate::mls::{lemma_mask_facts, step};
use crate::mls_algebra::{act, clmul, iterate, lemma_step_is_step_bits, step_bits};
use crate::mls_orbit::{
    is_period, lemma_act_step, lemma_cycle_start, lemma_exact_period, lemma_power_moves,
    lemma_power_mul, lemma_power_one, power_is,
};
use crate::primes::{lemma_prime_1801, lemma_prime_31, lemma_prime_601};
use vstd::prelude::*;

verus! {

/// What bit arithmetic says of this register: the first steps from the state 1,
/// and products of polynomials modulo the characteristic polynomial.
proof fn bit_facts()
    by (bit_vector)
    ensures
        step_bits(25, 0x1u32) == 0x2u32,
        step_bits(25, 0x2u32) == 0x4u32,
        step_bits(25, 0x4u32) == 0x8u32,
        step_bits(25, 0x8u32) == 0x10u32,
        step_bits(25, 0x10u32) == 0x20u32,
        step_bits(25, 0x20u32) == 0x40u32,
        step_bits(25, 0x40u32) == 0x80u32,
        step_bits(25, 0x80u32) == 0x100u32,
        step_bits(25, 0x100u32) == 0x200u32,
        step_bits(25, 0x200u32) == 0x400u32,
        step_bits(25, 0x400u32) == 0x800u32,
        step_bits(25, 0x800u32) == 0x1000u32,
        step_bits(25, 0x1000u32) == 0x2000u32,
        step_bits(25, 0x2000u32) == 0x4000u32,
        step_bits(25, 0x4000u32) == 0x8000u32,
        step_bits(25, 0x8000u32) == 0x10000u32,
        step_bits(25, 0x10000u32) == 0x20000u32,
        step_bits(25, 0x20000u32) == 0x40000u32,
        step_bits(25, 0x40000u32) == 0x80000u32,
        step_bits(25, 0x80000u32) == 0x100000u32,
        step_bits(25, 0x100000u32) == 0x200000u32,
        step_bits(25, 0x200000u32) == 0x400001u32,
        step_bits(25, 0x400001u32) == 0x800002u32,
        step_bits(25, 0x800002u32) == 0x1000004u32,
        step_bits(25, 0x1000004u32) == 0x9u32,
        0x9u32 ^ 0x0u32 == 0x9u32,
        0x8u32 ^ 0x9u32 == 0x1u32,
        0x1u32 ^ 0x1u32 == 0x0u32,
        clmul(0x2u64, 0x2u64) == clmul(0x0u64, 0x2000009u64) ^ 0x4u64,
        clmul(0x4u64, 0x4u64) == clmul(0x0u64, 0x2000009u64) ^ 0x10u64,
        clmul(0x10u64, 0x10u64) == clmul(0x0u64, 0x2000009u64) ^ 0x100u64,
        clmul(0x100u64, 0x100u64) == clmul(0x0u64, 0x2000009u64) ^ 0x10000u64,
        clmul(0x10000u64, 0x10000u64) == clmul(0x80u64, 0x2000009u64) ^ 0x480u64,
        clmul(0x480u64, 0x480u64) == clmul(0x0u64, 0x2000009u64) ^ 0x104000u64,
        clmul(0x104000u64, 0x104000u64) == clmul(0x8008u64, 0x2000009u64) ^ 0x48048u64,
        clmul(0x48048u64, 0x48048u64) == clmul(0x820u64, 0x2000009u64) ^ 0x5960u64,
        clmul(0x5960u64, 0x5960u64) == clmul(0x8u64, 0x2000009u64) ^ 0x1411448u64,
        clmul(0x1411448u64, 0x1411448u64) == clmul(0x880082u64, 0x2000009u64) ^ 0x1d814d2u64,
        clmul(0x1d814d2u64, 0x1d814d2u64) == clmul(0xa8a002u64, 0x2000009u64) ^ 0xfdf116u64,
        clmul(0xfdf116u64, 0xfdf116u64) == clmul(0x2aa8aau64, 0x2000009u64) ^ 0x7eeceeu64,
        clmul(0x7eeceeu64, 0x7eeceeu64) == clmul(0xaaa2au64, 0x2000009u64) ^ 0xfaf2eu64,
        clmul(0xfaf2eu64, 0xfaf2eu64) == clmul(0x2aa2u64, 0x2000009u64) ^ 0x547be6u64,
        clmul(0x547be6u64, 0x547be6u64) == clmul(0x8880au64, 0x2000009u64) ^ 0x1099c4eu64,
        clmul(0x1099c4eu64, 0x1099c4eu64) == clmul(0x8020a2u64, 0x2000009u64) ^ 0x1d135e6u64,
        clmul(0x1d135e6u64, 0x1d135e6u64) == clmul(0xa88080u64, 0x2000009u64) ^ 0xfdd094u64,
        clmul(0xfdd094u64, 0xfdd094u64) == clmul(0x2aa8a8u64, 0x2000009u64) ^ 0x7facf8u64,
        clmul(0x7facf8u64, 0x7facf8u64) == clmul(0xaaaa2u64, 0x2000009u64) ^ 0xfaaf2u64,
        clmul(0xfaaf2u64, 0xfaaf2u64) == clmul(0x2aa2u64, 0x2000009u64) ^ 0x452ab6u64,
        clmul(0x452ab6u64, 0x452ab6u64) == clmul(0x80882u64, 0x2000009u64) ^ 0xc0986u64,
        clmul(0xc0986u64, 0xc0986u64) == clmul(0x2800u64, 0x2000009u64) ^ 0x402814u64,
        clmul(0x402814u64, 0x402814u64) == clmul(0x80002u64, 0x2000009u64) ^ 0x80102u64,
        clmul(0x80102u64, 0x80102u64) == clmul(0x2000u64, 0x2000009u64) ^ 0x2004u64,
        clmul(0x2004u64, 0x2004u64) == clmul(0x2u64, 0x2000009u64) ^ 0x2u64,
        clmul(0x2u64, 0x480u64) == clmul(0x0u64, 0x2000009u64) ^ 0x900u64,
        clmul(0x900u64, 0x1d814d2u64) == clmul(0x78cu64, 0x2000009u64) ^ 0xb279ecu64,
        clmul(0xb279ecu64, 0x1099c4eu64) == clmul(0x5b8699u64, 0x2000009u64) ^ 0x1eb0259u64,
        clmul(0x1eb0259u64, 0x452ab6u64) == clmul(0x3e5b50u64, 0x2000009u64) ^ 0xc79436u64,
        clmul(0x148d7c7u64, 0xc79436u64 ^ 1) == clmul(0x7808e4u64, 0x2000009u64) ^ 1,
        clmul(0x2u64, 0x4u64) == clmul(0x0u64, 0x2000009u64) ^ 0x8u64,
        clmul(0x8u64, 0x10u64) == clmul(0x0u64, 0x2000009u64) ^ 0x80u64,
        clmul(0x80u64, 0x10000u64) == clmul(0x0u64, 0x2000009u64) ^ 0x800000u64,
        clmul(0x800000u64, 0x1411448u64) == clmul(0x504513u64, 0x2000009u64) ^ 0xd26d8bu64,
        clmul(0xd26d8bu64, 0xfdf116u64) == clmul(0x27c231u64, 0x2000009u64) ^ 0x11e7d33u64,
        clmul(0x11e7d33u64, 0x7eeceeu64) == clmul(0x3df36fu64, 0x2000009u64) ^ 0xc68805u64,
        clmul(0xc68805u64, 0x547be6u64) == clmul(0x1f7946u64, 0x2000009u64) ^ 0x1191708u64,
        clmul(0x1191708u64, 0x1099c4eu64) == clmul(0x882baeu64, 0x2000009u64) ^ 0x14a9eaeu64,
        clmul(0x90fc68u64, 0x14a9eaeu64 ^ 1) == clmul(0x5891d1u64, 0x2000009u64) ^ 1,
        clmul(0x2u64, 0x4u64) == clmul(0x0u64, 0x2000009u64) ^ 0x8u64,
        clmul(0x8u64, 0x10u64) == clmul(0x0u64, 0x2000009u64) ^ 0x80u64,
        clmul(0x80u64, 0x104000u64) == clmul(0x4u64, 0x2000009u64) ^ 0x200024u64,
        clmul(0x200024u64, 0x48048u64) == clmul(0x4804u64, 0x2000009u64) ^ 0x1800004u64,
        clmul(0x1800004u64, 0xfdf116u64) == clmul(0x4184ceu64, 0x2000009u64) ^ 0xba66e6u64,
        clmul(0xba66e6u64, 0x547be6u64) == clmul(0x13f022u64, 0x2000009u64) ^ 0x1180b26u64,
        clmul(0x1e45144u64, 0x1180b26u64 ^ 1) == clmul(0xfa9df5u64, 0x2000009u64) ^ 1,
{
}

/// The characteristic polynomial of the register of 25 bits takes the state 1
/// to 0.
proof fn lemma_annihilated_25()
    ensures
        act(25, 0x2000009u64, 1) == 0,
{
    bit_facts();
    lemma_act_step(25, 0x1u64, 0x9u32, step(25, 0x9u32), 0);
    lemma_step_is_step_bits(25, 0x1000004u32);
    lemma_act_step(25, 0x2u64, 0x1000004u32, 0x9u32, 0x9u32);
    lemma_step_is_step_bits(25, 0x800002u32);
    lemma_act_step(25, 0x4u64, 0x800002u32, 0x1000004u32, 0x9u32);
    lemma_step_is_step_bits(25, 0x400001u32);
    lemma_act_step(25, 0x8u64, 0x400001u32, 0x800002u32, 0x9u32);
    lemma_step_is_step_bits(25, 0x200000u32);
    lemma_act_step(25, 0x10u64, 0x200000u32, 0x400001u32, 0x9u32);
    lemma_step_is_step_bits(25, 0x100000u32);
    lemma_act_step(25, 0x20u64, 0x100000u32, 0x200000u32, 0x9u32);
    lemma_step_is_step_bits(25, 0x80000u32);
    lemma_act_step(25, 0x40u64, 0x80000u32, 0x100000u32, 0x9u32);
    lemma_step_is_step_bits(25, 0x40000u32);
    lemma_act_step(25, 0x80u64, 0x40000u32, 0x80000u32, 0x9u32);
    lemma_step_is_step_bits(25, 0x20000u32);
    lemma_act_step(25, 0x100u64, 0x20000u32, 0x40000u32, 0x9u32);
    lemma_step_is_step_bits(25, 0x10000u32);
    lemma_act_step(25, 0x200u64, 0x10000u32, 0x20000u32, 0x9u32);
    lemma_step_is_step_bits(25, 0x8000u32);
    lemma_act_step(25, 0x400u64, 0x8000u32, 0x10000u32, 0x9u32);
    lemma_step_is_step_bits(25, 0x4000u32);
    lemma_act_step(25, 0x800u64, 0x4000u32, 0x8000u32, 0x9u32);
    lemma_step_is_step_bits(25, 0x2000u32);
    lemma_act_step(25, 0x1000u64, 0x2000u32, 0x4000u32, 0x9u32);
    lemma_step_is_step_bits(25, 0x1000u32);
    lemma_act_step(25, 0x2000u64, 0x1000u32, 0x2000u32, 0x9u32);
    lemma_step_is_step_bits(25, 0x800u32);
    lemma_act_step(25, 0x4000u64, 0x800u32, 0x1000u32, 0x9u32);
    lemma_step_is_step_bits(25, 0x400u32);
    lemma_act_step(25, 0x8000u64, 0x400u32, 0x800u32, 0x9u32);
    lemma_step_is_step_bits(25, 0x200u32);
    lemma_act_step(25, 0x10000u64, 0x200u32, 0x400u32, 0x9u32);
    lemma_step_is_step_bits(25, 0x100u32);
    lemma_act_step(25, 0x20000u64, 0x100u32, 0x200u32, 0x9u32);
    lemma_step_is_step_bits(25, 0x80u32);
    lemma_act_step(25, 0x40000u64, 0x80u32, 0x100u32, 0x9u32);
    lemma_step_is_step_bits(25, 0x40u32);
    lemma_act_step(25, 0x80000u64, 0x40u32, 0x80u32, 0x9u32);
    lemma_step_is_step_bits(25, 0x20u32);
    lemma_act_step(25, 0x100000u64, 0x20u32, 0x40u32, 0x9u32);
    lemma_step_is_step_bits(25, 0x10u32);
    lemma_act_step(25, 0x200000u64, 0x10u32, 0x20u32, 0x9u32);
    lemma_step_is_step_bits(25, 0x8u32);
    lemma_act_step(25, 0x400001u64, 0x8u32, 0x10u32, 0x9u32);
    lemma_step_is_step_bits(25, 0x4u32);
    lemma_act_step(25, 0x800002u64, 0x4u32, 0x8u32, 0x1u32);
    lemma_step_is_step_bits(25, 0x2u32);
    lemma_act_step(25, 0x1000004u64, 0x2u32, 0x4u32, 0x1u32);
    lemma_step_is_step_bits(25, 0x1u32);
    lemma_act_step(25, 0x2000009u64, 0x1u32, 0x2u32, 0x1u32);
}

/// The polynomials that stand for 1, 2, 4, ... steps of the register of 25
/// bits.
proof fn lemma_squares_25()
    ensures
        power_is(25, 1, 0x2u64),
        power_is(25, 2, 0x4u64),
        power_is(25, 4, 0x10u64),
        power_is(25, 8, 0x100u64),
        power_is(25, 16, 0x10000u64),
        power_is(25, 32, 0x480u64),
        power_is(25, 64, 0x104000u64),
        power_is(25, 128, 0x48048u64),
        power_is(25, 256, 0x5960u64),
        power_is(25, 512, 0x1411448u64),
        power_is(25, 1024, 0x1d814d2u64),
        power_is(25, 2048, 0xfdf116u64),
        power_is(25, 4096, 0x7eeceeu64),
        power_is(25, 8192, 0xfaf2eu64),
        power_is(25, 16384, 0x547be6u64),
        power_is(25, 32768, 0x1099c4eu64),
        power_is(25, 65536, 0x1d135e6u64),
        power_is(25, 131072, 0xfdd094u64),
        power_is(25, 262144, 0x7facf8u64),
        power_is(25, 524288, 0xfaaf2u64),
        power_is(25, 1048576, 0x452ab6u64),
        power_is(25, 2097152, 0xc0986u64),
        power_is(25, 4194304, 0x402814u64),
        power_is(25, 8388608, 0x80102u64),
        power_is(25, 16777216, 0x2004u64),
        power_is(25, 33554432, 0x2u64),
{
    bit_facts();
    lemma_annihilated_25();
    lemma_power_one(25);
    lemma_power_mul(25, 0x2000009u64, 1, 0x2u64, 1, 0x2u64, 0x0u64, 0x4u64);
    lemma_power_mul(25, 0x2000009u64, 2, 0x4u64, 2, 0x4u64, 0x0u64, 0x10u64);
    lemma_power_mul(25, 0x2000009u64, 4, 0x10u64, 4, 0x10u64, 0x0u64, 0x100u64);
    lemma_power_mul(25, 0x2000009u64, 8, 0x100u64, 8, 0x100u64, 0x0u64, 0x10000u64);
    lemma_power_mul(25, 0x2000009u64, 16, 0x10000u64, 16, 0x10000u64, 0x80u64, 0x480u64);
    lemma_power_mul(25, 0x2000009u64, 32, 0x480u64, 32, 0x480u64, 0x0u64, 0x104000u64);
    lemma_power_mul(25, 0x2000009u64, 64, 0x104000u64, 64, 0x104000u64, 0x8008u64, 0x48048u64);
    lemma_power_mul(25, 0x2000009u64, 128, 0x48048u64, 128, 0x48048u64, 0x820u64, 0x5960u64);
    lemma_power_mul(25, 0x2000009u64, 256, 0x5960u64, 256, 0x5960u64, 0x8u64, 0x1411448u64);
    lemma_power_mul(25, 0x2000009u64, 512, 0x1411448u64, 512, 0x1411448u64, 0x880082u64, 0x1d814d2u64);
    lemma_power_mul(25, 0x2000009u64, 1024, 0x1d814d2u64, 1024, 0x1d814d2u64, 0xa8a002u64, 0xfdf116u64);
    lemma_power_mul(25, 0x2000009u64, 2048, 0xfdf116u64, 2048, 0xfdf116u64, 0x2aa8aau64, 0x7eeceeu64);
    lemma_power_mul(25, 0x2000009u64, 4096, 0x7eeceeu64, 4096, 0x7eeceeu64, 0xaaa2au64, 0xfaf2eu64);
    lemma_power_mul(25, 0x2000009u64, 8192, 0xfaf2eu64, 8192, 0xfaf2eu64, 0x2aa2u64, 0x547be6u64);
    lemma_power_mul(25, 0x2000009u64, 16384, 0x547be6u64, 16384, 0x547be6u64, 0x8880au64, 0x1099c4eu64);
    lemma_power_mul(25, 0x2000009u64, 32768, 0x1099c4eu64, 32768, 0x1099c4eu64, 0x8020a2u64, 0x1d135e6u64);
    lemma_power_mul(25, 0x2000009u64, 65536, 0x1d135e6u64, 65536, 0x1d135e6u64, 0xa88080u64, 0xfdd094u64);
    lemma_power_mul(25, 0x2000009u64, 131072, 0xfdd094u64, 131072, 0xfdd094u64, 0x2aa8a8u64, 0x7facf8u64);
    lemma_power_mul(25, 0x2000009u64, 262144, 0x7facf8u64, 262144, 0x7facf8u64, 0xaaaa2u64, 0xfaaf2u64);
    lemma_power_mul(25, 0x2000009u64, 524288, 0xfaaf2u64, 524288, 0xfaaf2u64, 0x2aa2u64, 0x452ab6u64);
    lemma_power_mul(25, 0x2000009u64, 1048576, 0x452ab6u64, 1048576, 0x452ab6u64, 0x80882u64, 0xc0986u64);
    lemma_power_mul(25, 0x2000009u64, 2097152, 0xc0986u64, 2097152, 0xc0986u64, 0x2800u64, 0x402814u64);
    lemma_power_mul(25, 0x2000009u64, 4194304, 0x402814u64, 4194304, 0x402814u64, 0x80002u64, 0x80102u64);
    lemma_power_mul(25, 0x2000009u64, 8388608, 0x80102u64, 8388608, 0x80102u64, 0x2000u64, 0x2004u64);
    lemma_power_mul(25, 0x2000009u64, 16777216, 0x2004u64, 16777216, 0x2004u64, 0x2u64, 0x2u64);
}

/// 1082401 steps do not take the state 1 of the register of 25 bits to
/// itself.
proof fn lemma_moves_25_31()
    ensures
        !is_period(25, 1, 1082401),
{
    bit_facts();
    lemma_annihilated_25();
    lemma_squares_25();
    lemma_power_mul(25, 0x2000009u64, 1, 0x2u64, 32, 0x480u64, 0x0u64, 0x900u64);
    lemma_power_mul(25, 0x2000009u64, 33, 0x900u64, 1024, 0x1d814d2u64, 0x78cu64, 0xb279ecu64);
    lemma_power_mul(25, 0x2000009u64, 1057, 0xb279ecu64, 32768, 0x1099c4eu64, 0x5b8699u64, 0x1eb0259u64);
    lemma_power_mul(25, 0x2000009u64, 33825, 0x1eb0259u64, 1048576, 0x452ab6u64, 0x3e5b50u64, 0xc79436u64);
    lemma_power_moves(25, 0x2000009u64, 1082401, 0xc79436u64, 0x148d7c7u64, 0x7808e4u64);
}

/// 55831 steps do not take the state 1 of the register of 25 bits to
/// itself.
proof fn lemma_moves_25_601()
    ensures
        !is_period(25, 1, 55831),
{
    bit_facts();
    lemma_annihilated_25();
    lemma_squares_25();
    lemma_power_mul(25, 0x2000009u64, 1, 0x2u64, 2, 0x4u64, 0x0u64, 0x8u64);
    lemma_power_mul(25, 0x2000009u64, 3, 0x8u64, 4, 0x10u64, 0x0u64, 0x80u64);
    lemma_power_mul(25, 0x2000009u64, 7, 0x80u64, 16, 0x10000u64, 0x0u64, 0x800000u64);
    lemma_power_mul(25, 0x2000009u64, 23, 0x800000u64, 512, 0x1411448u64, 0x504513u64, 0xd26d8bu64);
    lemma_power_mul(25, 0x2000009u64, 535, 0xd26d8bu64, 2048, 0xfdf116u64, 0x27c231u64, 0x11e7d33u64);
    lemma_power_mul(25, 0x2000009u64, 2583, 0x11e7d33u64, 4096, 0x7eeceeu64, 0x3df36fu64, 0xc68805u64);
    lemma_power_mul(25, 0x2000009u64, 6679, 0xc68805u64, 16384, 0x547be6u64, 0x1f7946u64, 0x1191708u64);
    lemma_power_mul(25, 0x2000009u64, 23063, 0x1191708u64, 32768, 0x1099c4eu64, 0x882baeu64, 0x14a9eaeu64);
    lemma_power_moves(25, 0x2000009u64, 55831, 0x14a9eaeu64, 0x90fc68u64, 0x5891d1u64);
}

/// 18631 steps do not take the state 1 of the register of 25 bits to
/// itself.
proof fn lemma_moves_25_1801()
    ensures
        !is_period(25, 1, 18631),
{
    bit_facts();
    lemma_annihilated_25();
    lemma_squares_25();
    lemma_power_mul(25, 0x2000009u64, 1, 0x2u64, 2, 0x4u64, 0x0u64, 0x8u64);
    lemma_power_mul(25, 0x2000009u64, 3, 0x8u64, 4, 0x10u64, 0x0u64, 0x80u64);
    lemma_power_mul(25, 0x2000009u64, 7, 0x80u64, 64, 0x104000u64, 0x4u64, 0x200024u64);
    lemma_power_mul(25, 0x2000009u64, 71, 0x200024u64, 128, 0x48048u64, 0x4804u64, 0x1800004u64);
    lemma_power_mul(25, 0x2000009u64, 199, 0x1800004u64, 2048, 0xfdf116u64, 0x4184ceu64, 0xba66e6u64);
    lemma_power_mul(25, 0x2000009u64, 2247, 0xba66e6u64, 16384, 0x547be6u64, 0x13f022u64, 0x1180b26u64);
    lemma_power_moves(25, 0x2000009u64, 18631, 0x1180b26u64, 0x1e45144u64, 0xfa9df5u64);
}

/// The state 1 of the register of 25 bits comes back after 33554431 steps and
/// not before.
pub proof fn lemma_unit_period_25(k: nat)
    requires
        0 < k < 33554431,
    ensures
        is_period(25, 1, 33554431),
        !is_period(25, 1, k),
{
    lemma_squares_25();
    lemma_cycle_start(25, 1, 33554432);
    lemma_moves_25_31();
    lemma_prime_31();
    lemma_moves_25_601();
    lemma_prime_601();
    lemma_moves_25_1801();
    lemma_prime_1801();
    let f0 = Seq::<nat>::empty();
    assert(product(f0) == 1);
    let f1 = f0.push(31);
    lemma_product_push(f0, 31);
    assert(product(f1) == 31);
    let f2 = f1.push(601);
    lemma_product_push(f1, 601);
    assert(product(f2) == 18631);
    let f3 = f2.push(1801);
    lemma_product_push(f2, 1801);
    assert(product(f3) == 33554431);
    let factors = f3;
    assert forall|j: int| 0 <= j < factors.len() implies !is_period(
        25,
        1,
        33554431nat / #[trigger] factors[j],
    ) by {
        if j == 0 {
            assert(factors[0] == 31);
            assert(33554431nat / 31nat == 1082401);
        }
        if j == 1 {
            assert(factors[1] == 601);
            assert(33554431nat / 601nat == 55831);
        }
        if j == 2 {
            assert(factors[2] == 1801);
            assert(33554431nat / 1801nat == 18631);
        }
    }
    lemma_mask_facts(25);
    lemma_exact_period(25, 1, 33554431, factors, k);
}

} // verus!
