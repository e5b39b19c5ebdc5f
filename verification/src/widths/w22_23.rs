//! The registers of 22 to 23 bits: the state 1 has period `2^n - 1` exactly.

use crate::divisors::{lemma_product_push, product};
use crate::mls::{lemma_mask_facts, step};
use crate::mls_algebra::{act, clmul, iterate, lemma_step_is_step_bits, step_bits};
use crate::mls_orbit::{
    is_period, lemma_act_step, lemma_cycle_start, lemma_exact_period, lemma_power_moves,
    lemma_power_mul, lemma_power_one, power_is,
};
use crate::primes::{
    lemma_prime_178481, lemma_prime_23, lemma_prime_3, lemma_prime_47, lemma_prime_683,
    lemma_prime_89,
};
use vstd::prelude::*;

verus! {

/// What bit arithmetic says of these registers: the first steps from the state 1,
/// and products of polynomials modulo the characteristic polynomial.
proof fn bit_facts()
    by (bit_vector)
    ensures
        step_bits(22, 0x1u32) == 0x2u32,
        step_bits(22, 0x2u32) == 0x4u32,
        step_bits(22, 0x4u32) == 0x8u32,
        step_bits(22, 0x8u32) == 0x10u32,
        step_bits(22, 0x10u32) == 0x20u32,
        step_bits(22, 0x20u32) == 0x40u32,
        step_bits(22, 0x40u32) == 0x80u32,
        step_bits(22, 0x80u32) == 0x100u32,
        step_bits(22, 0x100u32) == 0x200u32,
        step_bits(22, 0x200u32) == 0x400u32,
        step_bits(22, 0x400u32) == 0x800u32,
        step_bits(22, 0x800u32) == 0x1000u32,
        step_bits(22, 0x1000u32) == 0x2000u32,
        step_bits(22, 0x2000u32) == 0x4000u32,
        step_bits(22, 0x4000u32) == 0x8000u32,
        step_bits(22, 0x8000u32) == 0x10000u32,
        step_bits(22, 0x10000u32) == 0x20000u32,
        step_bits(22, 0x20000u32) == 0x40000u32,
        step_bits(22, 0x40000u32) == 0x80000u32,
        step_bits(22, 0x80000u32) == 0x100000u32,
        step_bits(22, 0x100000u32) == 0x200001u32,
        step_bits(22, 0x200001u32) == 0x3u32,
        0x3u32 ^ 0x0u32 == 0x3u32,
        0x2u32 ^ 0x3u32 == 0x1u32,
        0x1u32 ^ 0x1u32 == 0x0u32,
        clmul(0x2u64, 0x2u64) == clmul(0x0u64, 0x400003u64) ^ 0x4u64,
        clmul(0x4u64, 0x4u64) == clmul(0x0u64, 0x400003u64) ^ 0x10u64,
        clmul(0x10u64, 0x10u64) == clmul(0x0u64, 0x400003u64) ^ 0x100u64,
        clmul(0x100u64, 0x100u64) == clmul(0x0u64, 0x400003u64) ^ 0x10000u64,
        clmul(0x10000u64, 0x10000u64) == clmul(0x400u64, 0x400003u64) ^ 0xc00u64,
        clmul(0xc00u64, 0xc00u64) == clmul(0x1u64, 0x400003u64) ^ 0x100003u64,
        clmul(0x100003u64, 0x100003u64) == clmul(0x40000u64, 0x400003u64) ^ 0xc0005u64,
        clmul(0xc0005u64, 0xc0005u64) == clmul(0x14000u64, 0x400003u64) ^ 0x3c011u64,
        clmul(0x3c011u64, 0x3c011u64) == clmul(0x1540u64, 0x400003u64) ^ 0x3ec1u64,
        clmul(0x3ec1u64, 0x3ec1u64) == clmul(0x15u64, 0x400003u64) ^ 0x14503eu64,
        clmul(0x14503eu64, 0x14503eu64) == clmul(0x44044u64, 0x400003u64) ^ 0xcc598u64,
        clmul(0xcc598u64, 0xcc598u64) == clmul(0x14140u64, 0x400003u64) ^ 0x128280u64,
        clmul(0x128280u64, 0x128280u64) == clmul(0x41100u64, 0x400003u64) ^ 0x87300u64,
        clmul(0x87300u64, 0x87300u64) == clmul(0x10054u64, 0x400003u64) ^ 0x600fcu64,
        clmul(0x600fcu64, 0x600fcu64) == clmul(0x5000u64, 0x400003u64) ^ 0xa550u64,
        clmul(0xa550u64, 0xa550u64) == clmul(0x110u64, 0x400003u64) ^ 0x111230u64,
        clmul(0x111230u64, 0x111230u64) == clmul(0x40404u64, 0x400003u64) ^ 0x8090cu64,
        clmul(0x8090cu64, 0x8090cu64) == clmul(0x10001u64, 0x400003u64) ^ 0x20053u64,
        clmul(0x20053u64, 0x20053u64) == clmul(0x1000u64, 0x400003u64) ^ 0x2105u64,
        clmul(0x2105u64, 0x2105u64) == clmul(0x10u64, 0x400003u64) ^ 0x10021u64,
        clmul(0x10021u64, 0x10021u64) == clmul(0x400u64, 0x400003u64) ^ 0x801u64,
        clmul(0x801u64, 0x801u64) == clmul(0x1u64, 0x400003u64) ^ 0x2u64,
        clmul(0x2u64, 0x10u64) == clmul(0x0u64, 0x400003u64) ^ 0x20u64,
        clmul(0x20u64, 0x10000u64) == clmul(0x0u64, 0x400003u64) ^ 0x200000u64,
        clmul(0x200000u64, 0x100003u64) == clmul(0x80001u64, 0x400003u64) ^ 0x380003u64,
        clmul(0x380003u64, 0x3c011u64) == clmul(0x1680eu64, 0x400003u64) ^ 0x3ff821u64,
        clmul(0x3ff821u64, 0x14503eu64) == clmul(0xc3199u64, 0x400003u64) ^ 0x355555u64,
        clmul(0x355555u64, 0x128280u64) == clmul(0xc9495u64, 0x400003u64) ^ 0x53d3fu64,
        clmul(0x53d3fu64, 0x600fcu64) == clmul(0x7a36u64, 0x400003u64) ^ 0x1a370eu64,
        clmul(0x1a370eu64, 0x111230u64) == clmul(0x6e348u64, 0x400003u64) ^ 0x1e48f8u64,
        clmul(0x1e48f8u64, 0x20053u64) == clmul(0xf25eu64, 0x400003u64) ^ 0x257e6au64,
        clmul(0x257e6au64, 0x10021u64) == clmul(0x95ebu64, 0x400003u64) ^ 0x210d17u64,
        clmul(0x210d17u64, 0x210d17u64 ^ 1) == clmul(0x100401u64, 0x400003u64) ^ 1,
        clmul(0x2u64, 0x100u64) == clmul(0x0u64, 0x400003u64) ^ 0x200u64,
        clmul(0x200u64, 0x10000u64) == clmul(0x8u64, 0x400003u64) ^ 0x18u64,
        clmul(0x18u64, 0x100003u64) == clmul(0x6u64, 0x400003u64) ^ 0x22u64,
        clmul(0x22u64, 0xcc598u64) == clmul(0x6u64, 0x400003u64) ^ 0x1383au64,
        clmul(0x1383au64, 0x600fcu64) == clmul(0x1a41u64, 0x400003u64) ^ 0x37989bu64,
        clmul(0x37989bu64, 0xa550u64) == clmul(0x7760u64, 0x400003u64) ^ 0x3b21d0u64,
        clmul(0x3b21d0u64, 0x8090cu64) == clmul(0x763b6u64, 0x400003u64) ^ 0x137d1au64,
        clmul(0x1bbdceu64, 0x137d1au64 ^ 1) == clmul(0x64e41u64, 0x400003u64) ^ 1,
        clmul(0x2u64, 0x4u64) == clmul(0x0u64, 0x400003u64) ^ 0x8u64,
        clmul(0x8u64, 0x10u64) == clmul(0x0u64, 0x400003u64) ^ 0x80u64,
        clmul(0x80u64, 0x10000u64) == clmul(0x2u64, 0x400003u64) ^ 0x6u64,
        clmul(0x6u64, 0xcc598u64) == clmul(0x0u64, 0x400003u64) ^ 0x2a9d50u64,
        clmul(0x2a9d50u64, 0x128280u64) == clmul(0xba785u64, 0x400003u64) ^ 0x20e08fu64,
        clmul(0x20e08fu64, 0x87300u64) == clmul(0x4253du64, 0x400003u64) ^ 0x2f2e47u64,
        clmul(0x2f2e47u64, 0xa550u64) == clmul(0x4ba1u64, 0x400003u64) ^ 0x59253u64,
        clmul(0x614dfu64, 0x59253u64 ^ 1) == clmul(0x7485u64, 0x400003u64) ^ 1,
        clmul(0x2u64, 0x10u64) == clmul(0x0u64, 0x400003u64) ^ 0x20u64,
        clmul(0x20u64, 0x100u64) == clmul(0x0u64, 0x400003u64) ^ 0x2000u64,
        clmul(0x2000u64, 0x10000u64) == clmul(0x80u64, 0x400003u64) ^ 0x180u64,
        clmul(0x180u64, 0xc00u64) == clmul(0x0u64, 0x400003u64) ^ 0xa0000u64,
        clmul(0xa0000u64, 0x100003u64) == clmul(0x28000u64, 0x400003u64) ^ 0x198000u64,
        clmul(0x198000u64, 0xc0005u64) == clmul(0x2a801u64, 0x400003u64) ^ 0x387803u64,
        clmul(0x387803u64, 0x3c011u64) == clmul(0x16aa6u64, 0x400003u64) ^ 0x3807d9u64,
        clmul(0x3807d9u64, 0x3ec1u64) == clmul(0x170au64, 0x400003u64) ^ 0x128a07u64,
        clmul(0x128a07u64, 0x14503eu64) == clmul(0x59c07u64, 0x400003u64) ^ 0x198b3u64,
        clmul(0x198b3u64, 0x128280u64) == clmul(0x69d7u64, 0x400003u64) ^ 0x3205f9u64,
        clmul(0x28e600u64, 0x3205f9u64 ^ 1) == clmul(0x1f0fffu64, 0x400003u64) ^ 1,
        step_bits(23, 0x1u32) == 0x2u32,
        step_bits(23, 0x2u32) == 0x4u32,
        step_bits(23, 0x4u32) == 0x8u32,
        step_bits(23, 0x8u32) == 0x10u32,
        step_bits(23, 0x10u32) == 0x20u32,
        step_bits(23, 0x20u32) == 0x40u32,
        step_bits(23, 0x40u32) == 0x80u32,
        step_bits(23, 0x80u32) == 0x100u32,
        step_bits(23, 0x100u32) == 0x200u32,
        step_bits(23, 0x200u32) == 0x400u32,
        step_bits(23, 0x400u32) == 0x800u32,
        step_bits(23, 0x800u32) == 0x1000u32,
        step_bits(23, 0x1000u32) == 0x2000u32,
        step_bits(23, 0x2000u32) == 0x4000u32,
        step_bits(23, 0x4000u32) == 0x8000u32,
        step_bits(23, 0x8000u32) == 0x10000u32,
        step_bits(23, 0x10000u32) == 0x20000u32,
        step_bits(23, 0x20000u32) == 0x40001u32,
        step_bits(23, 0x40001u32) == 0x80002u32,
        step_bits(23, 0x80002u32) == 0x100004u32,
        step_bits(23, 0x100004u32) == 0x200008u32,
        step_bits(23, 0x200008u32) == 0x400010u32,
        step_bits(23, 0x400010u32) == 0x21u32,
        0x21u32 ^ 0x0u32 == 0x21u32,
        0x20u32 ^ 0x21u32 == 0x1u32,
        0x1u32 ^ 0x1u32 == 0x0u32,
        clmul(0x2u64, 0x2u64) == clmul(0x0u64, 0x800021u64) ^ 0x4u64,
        clmul(0x4u64, 0x4u64) == clmul(0x0u64, 0x800021u64) ^ 0x10u64,
        clmul(0x10u64, 0x10u64) == clmul(0x0u64, 0x800021u64) ^ 0x100u64,
        clmul(0x100u64, 0x100u64) == clmul(0x0u64, 0x800021u64) ^ 0x10000u64,
        clmul(0x10000u64, 0x10000u64) == clmul(0x200u64, 0x800021u64) ^ 0x4200u64,
        clmul(0x4200u64, 0x4200u64) == clmul(0x20u64, 0x800021u64) ^ 0x40420u64,
        clmul(0x40420u64, 0x40420u64) == clmul(0x2000u64, 0x800021u64) ^ 0x142400u64,
        clmul(0x142400u64, 0x142400u64) == clmul(0x22008u64, 0x800021u64) ^ 0x562108u64,
        clmul(0x562108u64, 0x562108u64) == clmul(0x222800u64, 0x800021u64) ^ 0x662840u64,
        clmul(0x662840u64, 0x662840u64) == clmul(0x282802u64, 0x800021u64) ^ 0x6d3842u64,
        clmul(0x6d3842u64, 0x6d3842u64) == clmul(0x28a200u64, 0x800021u64) ^ 0x7cf204u64,
        clmul(0x7cf204u64, 0x7cf204u64) == clmul(0x2aa0a0u64, 0x800021u64) ^ 0x7ab4b0u64,
        clmul(0x7ab4b0u64, 0x7ab4b0u64) == clmul(0x2a8880u64, 0x800021u64) ^ 0x6bdd80u64,
        clmul(0x6bdd80u64, 0x6bdd80u64) == clmul(0x288aa8u64, 0x800021u64) ^ 0x689fa8u64,
        clmul(0x689fa8u64, 0x689fa8u64) == clmul(0x288088u64, 0x800021u64) ^ 0x6dd5c8u64,
        clmul(0x6dd5c8u64, 0x6dd5c8u64) == clmul(0x28a2a8u64, 0x800021u64) ^ 0x2da7e8u64,
        clmul(0x2da7e8u64, 0x2da7e8u64) == clmul(0x8a28au64, 0x800021u64) ^ 0x9a78au64,
        clmul(0x9a78au64, 0x9a78au64) == clmul(0x8288u64, 0x800021u64) ^ 0x593ccu64,
        clmul(0x593ccu64, 0x593ccu64) == clmul(0x2282u64, 0x800021u64) ^ 0x12292u64,
        clmul(0x12292u64, 0x12292u64) == clmul(0x208u64, 0x800021u64) ^ 0x4020cu64,
        clmul(0x4020cu64, 0x4020cu64) == clmul(0x2000u64, 0x800021u64) ^ 0x2050u64,
        clmul(0x2050u64, 0x2050u64) == clmul(0x8u64, 0x800021u64) ^ 0x1008u64,
        clmul(0x1008u64, 0x1008u64) == clmul(0x2u64, 0x800021u64) ^ 0x2u64,
        clmul(0x2u64, 0x10000u64) == clmul(0x0u64, 0x800021u64) ^ 0x20000u64,
        clmul(0x20000u64, 0x4200u64) == clmul(0x108u64, 0x800021u64) ^ 0x2008u64,
        clmul(0x2008u64, 0x562108u64) == clmul(0x158du64, 0x800021u64) ^ 0x12ac6du64,
        clmul(0x12ac6du64, 0x7cf204u64) == clmul(0xe0a48u64, 0x800021u64) ^ 0x5798fcu64,
        clmul(0x5798fcu64, 0x7ab4b0u64) == clmul(0x30b4c7u64, 0x800021u64) ^ 0x357267u64,
        clmul(0x357267u64, 0x6bdd80u64) == clmul(0x142662u64, 0x800021u64) ^ 0x3c2aa2u64,
        clmul(0x3c2aa2u64, 0x6dd5c8u64) == clmul(0x136055u64, 0x800021u64) ^ 0x284c65u64,
        clmul(0x284c65u64, 0x9a78au64) == clmul(0x2f798u64, 0x800021u64) ^ 0x7ed6fau64,
        clmul(0x191238u64, 0x7ed6fau64 ^ 1) == clmul(0x8c429u64, 0x800021u64) ^ 1,
        clmul(0x2u64, 0x4u64) == clmul(0x0u64, 0x800021u64) ^ 0x8u64,
        clmul(0x8u64, 0x10u64) == clmul(0x0u64, 0x800021u64) ^ 0x80u64,
        clmul(0x80u64, 0x100u64) == clmul(0x0u64, 0x800021u64) ^ 0x8000u64,
        clmul(0x8000u64, 0x4200u64) == clmul(0x42u64, 0x800021u64) ^ 0x802u64,
        clmul(0x1b8597u64, 0x802u64 ^ 1) == clmul(0x1b8u64, 0x800021u64) ^ 1,
{
}

/// The characteristic polynomial of the register of 22 bits takes the state 1
/// to 0.
proof fn lemma_annihilated_22()
    ensures
        act(22, 0x400003u64, 1) == 0,
{
    bit_facts();
    lemma_act_step(22, 0x1u64, 0x3u32, step(22, 0x3u32), 0);
    lemma_step_is_step_bits(22, 0x200001u32);
    lemma_act_step(22, 0x2u64, 0x200001u32, 0x3u32, 0x3u32);
    lemma_step_is_step_bits(22, 0x100000u32);
    lemma_act_step(22, 0x4u64, 0x100000u32, 0x200001u32, 0x3u32);
    lemma_step_is_step_bits(22, 0x80000u32);
    lemma_act_step(22, 0x8u64, 0x80000u32, 0x100000u32, 0x3u32);
    lemma_step_is_step_bits(22, 0x40000u32);
    lemma_act_step(22, 0x10u64, 0x40000u32, 0x80000u32, 0x3u32);
    lemma_step_is_step_bits(22, 0x20000u32);
    lemma_act_step(22, 0x20u64, 0x20000u32, 0x40000u32, 0x3u32);
    lemma_step_is_step_bits(22, 0x10000u32);
    lemma_act_step(22, 0x40u64, 0x10000u32, 0x20000u32, 0x3u32);
    lemma_step_is_step_bits(22, 0x8000u32);
    lemma_act_step(22, 0x80u64, 0x8000u32, 0x10000u32, 0x3u32);
    lemma_step_is_step_bits(22, 0x4000u32);
    lemma_act_step(22, 0x100u64, 0x4000u32, 0x8000u32, 0x3u32);
    lemma_step_is_step_bits(22, 0x2000u32);
    lemma_act_step(22, 0x200u64, 0x2000u32, 0x4000u32, 0x3u32);
    lemma_step_is_step_bits(22, 0x1000u32);
    lemma_act_step(22, 0x400u64, 0x1000u32, 0x2000u32, 0x3u32);
    lemma_step_is_step_bits(22, 0x800u32);
    lemma_act_step(22, 0x800u64, 0x800u32, 0x1000u32, 0x3u32);
    lemma_step_is_step_bits(22, 0x400u32);
    lemma_act_step(22, 0x1000u64, 0x400u32, 0x800u32, 0x3u32);
    lemma_step_is_step_bits(22, 0x200u32);
    lemma_act_step(22, 0x2000u64, 0x200u32, 0x400u32, 0x3u32);
    lemma_step_is_step_bits(22, 0x100u32);
    lemma_act_step(22, 0x4000u64, 0x100u32, 0x200u32, 0x3u32);
    lemma_step_is_step_bits(22, 0x80u32);
    lemma_act_step(22, 0x8000u64, 0x80u32, 0x100u32, 0x3u32);
    lemma_step_is_step_bits(22, 0x40u32);
    lemma_act_step(22, 0x10000u64, 0x40u32, 0x80u32, 0x3u32);
    lemma_step_is_step_bits(22, 0x20u32);
    lemma_act_step(22, 0x20000u64, 0x20u32, 0x40u32, 0x3u32);
    lemma_step_is_step_bits(22, 0x10u32);
    lemma_act_step(22, 0x40000u64, 0x10u32, 0x20u32, 0x3u32);
    lemma_step_is_step_bits(22, 0x8u32);
    lemma_act_step(22, 0x80000u64, 0x8u32, 0x10u32, 0x3u32);
    lemma_step_is_step_bits(22, 0x4u32);
    lemma_act_step(22, 0x100000u64, 0x4u32, 0x8u32, 0x3u32);
    lemma_step_is_step_bits(22, 0x2u32);
    lemma_act_step(22, 0x200001u64, 0x2u32, 0x4u32, 0x3u32);
    lemma_step_is_step_bits(22, 0x1u32);
    lemma_act_step(22, 0x400003u64, 0x1u32, 0x2u32, 0x1u32);
}

/// The polynomials that stand for 1, 2, 4, ... steps of the register of 22
/// bits.
proof fn lemma_squares_22()
    ensures
        power_is(22, 1, 0x2u64),
        power_is(22, 2, 0x4u64),
        power_is(22, 4, 0x10u64),
        power_is(22, 8, 0x100u64),
        power_is(22, 16, 0x10000u64),
        power_is(22, 32, 0xc00u64),
        power_is(22, 64, 0x100003u64),
        power_is(22, 128, 0xc0005u64),
        power_is(22, 256, 0x3c011u64),
        power_is(22, 512, 0x3ec1u64),
        power_is(22, 1024, 0x14503eu64),
        power_is(22, 2048, 0xcc598u64),
        power_is(22, 4096, 0x128280u64),
        power_is(22, 8192, 0x87300u64),
        power_is(22, 16384, 0x600fcu64),
        power_is(22, 32768, 0xa550u64),
        power_is(22, 65536, 0x111230u64),
        power_is(22, 131072, 0x8090cu64),
        power_is(22, 262144, 0x20053u64),
        power_is(22, 524288, 0x2105u64),
        power_is(22, 1048576, 0x10021u64),
        power_is(22, 2097152, 0x801u64),
        power_is(22, 4194304, 0x2u64),
{
    bit_facts();
    lemma_annihilated_22();
    lemma_power_one(22);
    lemma_power_mul(22, 0x400003u64, 1, 0x2u64, 1, 0x2u64, 0x0u64, 0x4u64);
    lemma_power_mul(22, 0x400003u64, 2, 0x4u64, 2, 0x4u64, 0x0u64, 0x10u64);
    lemma_power_mul(22, 0x400003u64, 4, 0x10u64, 4, 0x10u64, 0x0u64, 0x100u64);
    lemma_power_mul(22, 0x400003u64, 8, 0x100u64, 8, 0x100u64, 0x0u64, 0x10000u64);
    lemma_power_mul(22, 0x400003u64, 16, 0x10000u64, 16, 0x10000u64, 0x400u64, 0xc00u64);
    lemma_power_mul(22, 0x400003u64, 32, 0xc00u64, 32, 0xc00u64, 0x1u64, 0x100003u64);
    lemma_power_mul(22, 0x400003u64, 64, 0x100003u64, 64, 0x100003u64, 0x40000u64, 0xc0005u64);
    lemma_power_mul(22, 0x400003u64, 128, 0xc0005u64, 128, 0xc0005u64, 0x14000u64, 0x3c011u64);
    lemma_power_mul(22, 0x400003u64, 256, 0x3c011u64, 256, 0x3c011u64, 0x1540u64, 0x3ec1u64);
    lemma_power_mul(22, 0x400003u64, 512, 0x3ec1u64, 512, 0x3ec1u64, 0x15u64, 0x14503eu64);
    lemma_power_mul(22, 0x400003u64, 1024, 0x14503eu64, 1024, 0x14503eu64, 0x44044u64, 0xcc598u64);
    lemma_power_mul(22, 0x400003u64, 2048, 0xcc598u64, 2048, 0xcc598u64, 0x14140u64, 0x128280u64);
    lemma_power_mul(22, 0x400003u64, 4096, 0x128280u64, 4096, 0x128280u64, 0x41100u64, 0x87300u64);
    lemma_power_mul(22, 0x400003u64, 8192, 0x87300u64, 8192, 0x87300u64, 0x10054u64, 0x600fcu64);
    lemma_power_mul(22, 0x400003u64, 16384, 0x600fcu64, 16384, 0x600fcu64, 0x5000u64, 0xa550u64);
    lemma_power_mul(22, 0x400003u64, 32768, 0xa550u64, 32768, 0xa550u64, 0x110u64, 0x111230u64);
    lemma_power_mul(22, 0x400003u64, 65536, 0x111230u64, 65536, 0x111230u64, 0x40404u64, 0x8090cu64);
    lemma_power_mul(22, 0x400003u64, 131072, 0x8090cu64, 131072, 0x8090cu64, 0x10001u64, 0x20053u64);
    lemma_power_mul(22, 0x400003u64, 262144, 0x20053u64, 262144, 0x20053u64, 0x1000u64, 0x2105u64);
    lemma_power_mul(22, 0x400003u64, 524288, 0x2105u64, 524288, 0x2105u64, 0x10u64, 0x10021u64);
    lemma_power_mul(22, 0x400003u64, 1048576, 0x10021u64, 1048576, 0x10021u64, 0x400u64, 0x801u64);
    lemma_power_mul(22, 0x400003u64, 2097152, 0x801u64, 2097152, 0x801u64, 0x1u64, 0x2u64);
}

/// 1398101 steps do not take the state 1 of the register of 22 bits to
/// itself.
proof fn lemma_moves_22_3()
    ensures
        !is_period(22, 1, 1398101),
{
    bit_facts();
    lemma_annihilated_22();
    lemma_squares_22();
    lemma_power_mul(22, 0x400003u64, 1, 0x2u64, 4, 0x10u64, 0x0u64, 0x20u64);
    lemma_power_mul(22, 0x400003u64, 5, 0x20u64, 16, 0x10000u64, 0x0u64, 0x200000u64);
    lemma_power_mul(22, 0x400003u64, 21, 0x200000u64, 64, 0x100003u64, 0x80001u64, 0x380003u64);
    lemma_power_mul(22, 0x400003u64, 85, 0x380003u64, 256, 0x3c011u64, 0x1680eu64, 0x3ff821u64);
    lemma_power_mul(22, 0x400003u64, 341, 0x3ff821u64, 1024, 0x14503eu64, 0xc3199u64, 0x355555u64);
    lemma_power_mul(22, 0x400003u64, 1365, 0x355555u64, 4096, 0x128280u64, 0xc9495u64, 0x53d3fu64);
    lemma_power_mul(22, 0x400003u64, 5461, 0x53d3fu64, 16384, 0x600fcu64, 0x7a36u64, 0x1a370eu64);
    lemma_power_mul(22, 0x400003u64, 21845, 0x1a370eu64, 65536, 0x111230u64, 0x6e348u64, 0x1e48f8u64);
    lemma_power_mul(22, 0x400003u64, 87381, 0x1e48f8u64, 262144, 0x20053u64, 0xf25eu64, 0x257e6au64);
    lemma_power_mul(22, 0x400003u64, 349525, 0x257e6au64, 1048576, 0x10021u64, 0x95ebu64, 0x210d17u64);
    lemma_power_moves(22, 0x400003u64, 1398101, 0x210d17u64, 0x210d17u64, 0x100401u64);
}

/// 182361 steps do not take the state 1 of the register of 22 bits to
/// itself.
proof fn lemma_moves_22_23()
    ensures
        !is_period(22, 1, 182361),
{
    bit_facts();
    lemma_annihilated_22();
    lemma_squares_22();
    lemma_power_mul(22, 0x400003u64, 1, 0x2u64, 8, 0x100u64, 0x0u64, 0x200u64);
    lemma_power_mul(22, 0x400003u64, 9, 0x200u64, 16, 0x10000u64, 0x8u64, 0x18u64);
    lemma_power_mul(22, 0x400003u64, 25, 0x18u64, 64, 0x100003u64, 0x6u64, 0x22u64);
    lemma_power_mul(22, 0x400003u64, 89, 0x22u64, 2048, 0xcc598u64, 0x6u64, 0x1383au64);
    lemma_power_mul(22, 0x400003u64, 2137, 0x1383au64, 16384, 0x600fcu64, 0x1a41u64, 0x37989bu64);
    lemma_power_mul(22, 0x400003u64, 18521, 0x37989bu64, 32768, 0xa550u64, 0x7760u64, 0x3b21d0u64);
    lemma_power_mul(22, 0x400003u64, 51289, 0x3b21d0u64, 131072, 0x8090cu64, 0x763b6u64, 0x137d1au64);
    lemma_power_moves(22, 0x400003u64, 182361, 0x137d1au64, 0x1bbdceu64, 0x64e41u64);
}

/// 47127 steps do not take the state 1 of the register of 22 bits to
/// itself.
proof fn lemma_moves_22_89()
    ensures
        !is_period(22, 1, 47127),
{
    bit_facts();
    lemma_annihilated_22();
    lemma_squares_22();
    lemma_power_mul(22, 0x400003u64, 1, 0x2u64, 2, 0x4u64, 0x0u64, 0x8u64);
    lemma_power_mul(22, 0x400003u64, 3, 0x8u64, 4, 0x10u64, 0x0u64, 0x80u64);
    lemma_power_mul(22, 0x400003u64, 7, 0x80u64, 16, 0x10000u64, 0x2u64, 0x6u64);
    lemma_power_mul(22, 0x400003u64, 23, 0x6u64, 2048, 0xcc598u64, 0x0u64, 0x2a9d50u64);
    lemma_power_mul(22, 0x400003u64, 2071, 0x2a9d50u64, 4096, 0x128280u64, 0xba785u64, 0x20e08fu64);
    lemma_power_mul(22, 0x400003u64, 6167, 0x20e08fu64, 8192, 0x87300u64, 0x4253du64, 0x2f2e47u64);
    lemma_power_mul(22, 0x400003u64, 14359, 0x2f2e47u64, 32768, 0xa550u64, 0x4ba1u64, 0x59253u64);
    lemma_power_moves(22, 0x400003u64, 47127, 0x59253u64, 0x614dfu64, 0x7485u64);
}

/// 6141 steps do not take the state 1 of the register of 22 bits to
/// itself.
proof fn lemma_moves_22_683()
    ensures
        !is_period(22, 1, 6141),
{
    bit_facts();
    lemma_annihilated_22();
    lemma_squares_22();
    lemma_power_mul(22, 0x400003u64, 1, 0x2u64, 4, 0x10u64, 0x0u64, 0x20u64);
    lemma_power_mul(22, 0x400003u64, 5, 0x20u64, 8, 0x100u64, 0x0u64, 0x2000u64);
    lemma_power_mul(22, 0x400003u64, 13, 0x2000u64, 16, 0x10000u64, 0x80u64, 0x180u64);
    lemma_power_mul(22, 0x400003u64, 29, 0x180u64, 32, 0xc00u64, 0x0u64, 0xa0000u64);
    lemma_power_mul(22, 0x400003u64, 61, 0xa0000u64, 64, 0x100003u64, 0x28000u64, 0x198000u64);
    lemma_power_mul(22, 0x400003u64, 125, 0x198000u64, 128, 0xc0005u64, 0x2a801u64, 0x387803u64);
    lemma_power_mul(22, 0x400003u64, 253, 0x387803u64, 256, 0x3c011u64, 0x16aa6u64, 0x3807d9u64);
    lemma_power_mul(22, 0x400003u64, 509, 0x3807d9u64, 512, 0x3ec1u64, 0x170au64, 0x128a07u64);
    lemma_power_mul(22, 0x400003u64, 1021, 0x128a07u64, 1024, 0x14503eu64, 0x59c07u64, 0x198b3u64);
    lemma_power_mul(22, 0x400003u64, 2045, 0x198b3u64, 4096, 0x128280u64, 0x69d7u64, 0x3205f9u64);
    lemma_power_moves(22, 0x400003u64, 6141, 0x3205f9u64, 0x28e600u64, 0x1f0fffu64);
}

/// The state 1 of the register of 22 bits comes back after 4194303 steps and
/// not before.
pub proof fn lemma_unit_period_22(k: nat)
    requires
        0 < k < 4194303,
    ensures
        is_period(22, 1, 4194303),
        !is_period(22, 1, k),
{
    lemma_squares_22();
    lemma_cycle_start(22, 1, 4194304);
    lemma_moves_22_3();
    lemma_prime_3();
    lemma_moves_22_23();
    lemma_prime_23();
    lemma_moves_22_89();
    lemma_prime_89();
    lemma_moves_22_683();
    lemma_prime_683();
    let f0 = Seq::<nat>::empty();
    assert(product(f0) == 1);
    let f1 = f0.push(3);
    lemma_product_push(f0, 3);
    assert(product(f1) == 3);
    let f2 = f1.push(23);
    lemma_product_push(f1, 23);
    assert(product(f2) == 69);
    let f3 = f2.push(89);
    lemma_product_push(f2, 89);
    assert(product(f3) == 6141);
    let f4 = f3.push(683);
    lemma_product_push(f3, 683);
    assert(product(f4) == 4194303);
    let factors = f4;
    assert forall|j: int| 0 <= j < factors.len() implies !is_period(
        22,
        1,
        4194303nat / #[trigger] factors[j],
    ) by {
        if j == 0 {
            assert(factors[0] == 3);
            assert(4194303nat / 3nat == 1398101);
        }
        if j == 1 {
            assert(factors[1] == 23);
            assert(4194303nat / 23nat == 182361);
        }
        if j == 2 {
            assert(factors[2] == 89);
            assert(4194303nat / 89nat == 47127);
        }
        if j == 3 {
            assert(factors[3] == 683);
            assert(4194303nat / 683nat == 6141);
        }
    }
    lemma_mask_facts(22);
    lemma_exact_period(22, 1, 4194303, factors, k);
}

/// The characteristic polynomial of the register of 23 bits takes the state 1
/// to 0.
proof fn lemma_annihilated_23()
    ensures
        act(23, 0x800021u64, 1) == 0,
{
    bit_facts();
    lemma_act_step(23, 0x1u64, 0x21u32, step(23, 0x21u32), 0);
    lemma_step_is_step_bits(23, 0x400010u32);
    lemma_act_step(23, 0x2u64, 0x400010u32, 0x21u32, 0x21u32);
    lemma_step_is_step_bits(23, 0x200008u32);
    lemma_act_step(23, 0x4u64, 0x200008u32, 0x400010u32, 0x21u32);
    lemma_step_is_step_bits(23, 0x100004u32);
    lemma_act_step(23, 0x8u64, 0x100004u32, 0x200008u32, 0x21u32);
    lemma_step_is_step_bits(23, 0x80002u32);
    lemma_act_step(23, 0x10u64, 0x80002u32, 0x100004u32, 0x21u32);
    lemma_step_is_step_bits(23, 0x40001u32);
    lemma_act_step(23, 0x20u64, 0x40001u32, 0x80002u32, 0x21u32);
    lemma_step_is_step_bits(23, 0x20000u32);
    lemma_act_step(23, 0x40u64, 0x20000u32, 0x40001u32, 0x21u32);
    lemma_step_is_step_bits(23, 0x10000u32);
    lemma_act_step(23, 0x80u64, 0x10000u32, 0x20000u32, 0x21u32);
    lemma_step_is_step_bits(23, 0x8000u32);
    lemma_act_step(23, 0x100u64, 0x8000u32, 0x10000u32, 0x21u32);
    lemma_step_is_step_bits(23, 0x4000u32);
    lemma_act_step(23, 0x200u64, 0x4000u32, 0x8000u32, 0x21u32);
    lemma_step_is_step_bits(23, 0x2000u32);
    lemma_act_step(23, 0x400u64, 0x2000u32, 0x4000u32, 0x21u32);
    lemma_step_is_step_bits(23, 0x1000u32);
    lemma_act_step(23, 0x800u64, 0x1000u32, 0x2000u32, 0x21u32);
    lemma_step_is_step_bits(23, 0x800u32);
    lemma_act_step(23, 0x1000u64, 0x800u32, 0x1000u32, 0x21u32);
    lemma_step_is_step_bits(23, 0x400u32);
    lemma_act_step(23, 0x2000u64, 0x400u32, 0x800u32, 0x21u32);
    lemma_step_is_step_bits(23, 0x200u32);
    lemma_act_step(23, 0x4000u64, 0x200u32, 0x400u32, 0x21u32);
    lemma_step_is_step_bits(23, 0x100u32);
    lemma_act_step(23, 0x8000u64, 0x100u32, 0x200u32, 0x21u32);
    lemma_step_is_step_bits(23, 0x80u32);
    lemma_act_step(23, 0x10000u64, 0x80u32, 0x100u32, 0x21u32);
    lemma_step_is_step_bits(23, 0x40u32);
    lemma_act_step(23, 0x20000u64, 0x40u32, 0x80u32, 0x21u32);
    lemma_step_is_step_bits(23, 0x20u32);
    lemma_act_step(23, 0x40001u64, 0x20u32, 0x40u32, 0x21u32);
    lemma_step_is_step_bits(23, 0x10u32);
    lemma_act_step(23, 0x80002u64, 0x10u32, 0x20u32, 0x1u32);
    lemma_step_is_step_bits(23, 0x8u32);
    lemma_act_step(23, 0x100004u64, 0x8u32, 0x10u32, 0x1u32);
    lemma_step_is_step_bits(23, 0x4u32);
    lemma_act_step(23, 0x200008u64, 0x4u32, 0x8u32, 0x1u32);
    lemma_step_is_step_bits(23, 0x2u32);
    lemma_act_step(23, 0x400010u64, 0x2u32, 0x4u32, 0x1u32);
    lemma_step_is_step_bits(23, 0x1u32);
    lemma_act_step(23, 0x800021u64, 0x1u32, 0x2u32, 0x1u32);
}

/// The polynomials that stand for 1, 2, 4, ... steps of the register of 23
/// bits.
proof fn lemma_squares_23()
    ensures
        power_is(23, 1, 0x2u64),
        power_is(23, 2, 0x4u64),
        power_is(23, 4, 0x10u64),
        power_is(23, 8, 0x100u64),
        power_is(23, 16, 0x10000u64),
        power_is(23, 32, 0x4200u64),
        power_is(23, 64, 0x40420u64),
        power_is(23, 128, 0x142400u64),
        power_is(23, 256, 0x562108u64),
        power_is(23, 512, 0x662840u64),
        power_is(23, 1024, 0x6d3842u64),
        power_is(23, 2048, 0x7cf204u64),
        power_is(23, 4096, 0x7ab4b0u64),
        power_is(23, 8192, 0x6bdd80u64),
        power_is(23, 16384, 0x689fa8u64),
        power_is(23, 32768, 0x6dd5c8u64),
        power_is(23, 65536, 0x2da7e8u64),
        power_is(23, 131072, 0x9a78au64),
        power_is(23, 262144, 0x593ccu64),
        power_is(23, 524288, 0x12292u64),
        power_is(23, 1048576, 0x4020cu64),
        power_is(23, 2097152, 0x2050u64),
        power_is(23, 4194304, 0x1008u64),
        power_is(23, 8388608, 0x2u64),
{
    bit_facts();
    lemma_annihilated_23();
    lemma_power_one(23);
    lemma_power_mul(23, 0x800021u64, 1, 0x2u64, 1, 0x2u64, 0x0u64, 0x4u64);
    lemma_power_mul(23, 0x800021u64, 2, 0x4u64, 2, 0x4u64, 0x0u64, 0x10u64);
    lemma_power_mul(23, 0x800021u64, 4, 0x10u64, 4, 0x10u64, 0x0u64, 0x100u64);
    lemma_power_mul(23, 0x800021u64, 8, 0x100u64, 8, 0x100u64, 0x0u64, 0x10000u64);
    lemma_power_mul(23, 0x800021u64, 16, 0x10000u64, 16, 0x10000u64, 0x200u64, 0x4200u64);
    lemma_power_mul(23, 0x800021u64, 32, 0x4200u64, 32, 0x4200u64, 0x20u64, 0x40420u64);
    lemma_power_mul(23, 0x800021u64, 64, 0x40420u64, 64, 0x40420u64, 0x2000u64, 0x142400u64);
    lemma_power_mul(23, 0x800021u64, 128, 0x142400u64, 128, 0x142400u64, 0x22008u64, 0x562108u64);
    lemma_power_mul(23, 0x800021u64, 256, 0x562108u64, 256, 0x562108u64, 0x222800u64, 0x662840u64);
    lemma_power_mul(23, 0x800021u64, 512, 0x662840u64, 512, 0x662840u64, 0x282802u64, 0x6d3842u64);
    lemma_power_mul(23, 0x800021u64, 1024, 0x6d3842u64, 1024, 0x6d3842u64, 0x28a200u64, 0x7cf204u64);
    lemma_power_mul(23, 0x800021u64, 2048, 0x7cf204u64, 2048, 0x7cf204u64, 0x2aa0a0u64, 0x7ab4b0u64);
    lemma_power_mul(23, 0x800021u64, 4096, 0x7ab4b0u64, 4096, 0x7ab4b0u64, 0x2a8880u64, 0x6bdd80u64);
    lemma_power_mul(23, 0x800021u64, 8192, 0x6bdd80u64, 8192, 0x6bdd80u64, 0x288aa8u64, 0x689fa8u64);
    lemma_power_mul(23, 0x800021u64, 16384, 0x689fa8u64, 16384, 0x689fa8u64, 0x288088u64, 0x6dd5c8u64);
    lemma_power_mul(23, 0x800021u64, 32768, 0x6dd5c8u64, 32768, 0x6dd5c8u64, 0x28a2a8u64, 0x2da7e8u64);
    lemma_power_mul(23, 0x800021u64, 65536, 0x2da7e8u64, 65536, 0x2da7e8u64, 0x8a28au64, 0x9a78au64);
    lemma_power_mul(23, 0x800021u64, 131072, 0x9a78au64, 131072, 0x9a78au64, 0x8288u64, 0x593ccu64);
    lemma_power_mul(23, 0x800021u64, 262144, 0x593ccu64, 262144, 0x593ccu64, 0x2282u64, 0x12292u64);
    lemma_power_mul(23, 0x800021u64, 524288, 0x12292u64, 524288, 0x12292u64, 0x208u64, 0x4020cu64);
    lemma_power_mul(23, 0x800021u64, 1048576, 0x4020cu64, 1048576, 0x4020cu64, 0x2000u64, 0x2050u64);
    lemma_power_mul(23, 0x800021u64, 2097152, 0x2050u64, 2097152, 0x2050u64, 0x8u64, 0x1008u64);
    lemma_power_mul(23, 0x800021u64, 4194304, 0x1008u64, 4194304, 0x1008u64, 0x2u64, 0x2u64);
}

/// 178481 steps do not take the state 1 of the register of 23 bits to
/// itself.
proof fn lemma_moves_23_47()
    ensures
        !is_period(23, 1, 178481),
{
    bit_facts();
    lemma_annihilated_23();
    lemma_squares_23();
    lemma_power_mul(23, 0x800021u64, 1, 0x2u64, 16, 0x10000u64, 0x0u64, 0x20000u64);
    lemma_power_mul(23, 0x800021u64, 17, 0x20000u64, 32, 0x4200u64, 0x108u64, 0x2008u64);
    lemma_power_mul(23, 0x800021u64, 49, 0x2008u64, 256, 0x562108u64, 0x158du64, 0x12ac6du64);
    lemma_power_mul(23, 0x800021u64, 305, 0x12ac6du64, 2048, 0x7cf204u64, 0xe0a48u64, 0x5798fcu64);
    lemma_power_mul(23, 0x800021u64, 2353, 0x5798fcu64, 4096, 0x7ab4b0u64, 0x30b4c7u64, 0x357267u64);
    lemma_power_mul(23, 0x800021u64, 6449, 0x357267u64, 8192, 0x6bdd80u64, 0x142662u64, 0x3c2aa2u64);
    lemma_power_mul(23, 0x800021u64, 14641, 0x3c2aa2u64, 32768, 0x6dd5c8u64, 0x136055u64, 0x284c65u64);
    lemma_power_mul(23, 0x800021u64, 47409, 0x284c65u64, 131072, 0x9a78au64, 0x2f798u64, 0x7ed6fau64);
    lemma_power_moves(23, 0x800021u64, 178481, 0x7ed6fau64, 0x191238u64, 0x8c429u64);
}

/// 47 steps do not take the state 1 of the register of 23 bits to
/// itself.
proof fn lemma_moves_23_178481()
    ensures
        !is_period(23, 1, 47),
{
    bit_facts();
    lemma_annihilated_23();
    lemma_squares_23();
    lemma_power_mul(23, 0x800021u64, 1, 0x2u64, 2, 0x4u64, 0x0u64, 0x8u64);
    lemma_power_mul(23, 0x800021u64, 3, 0x8u64, 4, 0x10u64, 0x0u64, 0x80u64);
    lemma_power_mul(23, 0x800021u64, 7, 0x80u64, 8, 0x100u64, 0x0u64, 0x8000u64);
    lemma_power_mul(23, 0x800021u64, 15, 0x8000u64, 32, 0x4200u64, 0x42u64, 0x802u64);
    lemma_power_moves(23, 0x800021u64, 47, 0x802u64, 0x1b8597u64, 0x1b8u64);
}

/// The state 1 of the register of 23 bits comes back after 8388607 steps and
/// not before.
pub proof fn lemma_unit_period_23(k: nat)
    requires
        0 < k < 8388607,
    ensures
        is_period(23, 1, 8388607),
        !is_period(23, 1, k),
{
    lemma_squares_23();
    lemma_cycle_start(23, 1, 8388608);
    lemma_moves_23_47();
    lemma_prime_47();
    lemma_moves_23_178481();
    lemma_prime_178481();
    let f0 = Seq::<nat>::empty();
    assert(product(f0) == 1);
    let f1 = f0.push(47);
    lemma_product_push(f0, 47);
    assert(product(f1) == 47);
    let f2 = f1.push(178481);
    lemma_product_push(f1, 178481);
    assert(product(f2) == 8388607);
    let factors = f2;
    assert forall|j: int| 0 <= j < factors.len() implies !is_period(
        23,
        1,
        8388607nat / #[trigger] factors[j],
    ) by {
        if j == 0 {
            assert(factors[0] == 47);
            assert(8388607nat / 47nat == 178481);
        }
        if j == 1 {
            assert(factors[1] == 178481);
            assert(8388607nat / 178481nat == 47);
        }
    }
    lemma_mask_facts(23);
    lemma_exact_period(23, 1, 8388607, factors, k);
}

} // verus!
