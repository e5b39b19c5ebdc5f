//! The register of 29 bits: the state 1 has period `2^29 - 1` exactly.

use crate::divisors::{lemma_product_push, product};
use crate::mls::{lemma_mask_facts, step};
use crate::mls_algebra::{act, clmul, iterate, lemma_step_is_step_bits, step_bits};
use crate::mls_orbit::{
    is_period, lemma_act_step, lemma_cycle_start, lemma_exact_period, lemma_power_moves,
    lemma_power_mul, lemma_power_one, power_is,
};
use crate::primes::{lemma_prime_1103, lemma_prime_2089, lemma_prime_233};
use vstd::prelude::*;

verus! {

/// What bit arithmetic says of this register: the first steps from the state 1,
/// and products of polynomials modulo the characteristic polynomial.
proof fn bit_facts()
    by (bit_vector)
    ensures
        step_bits(29, 0x1u32) == 0x2u32,
        step_bits(29, 0x2u32) == 0x4u32,
        step_bits(29, 0x4u32) == 0x8u32,
        step_bits(29, 0x8u32) == 0x10u32,
        step_bits(29, 0x10u32) == 0x20u32,
        step_bits(29, 0x20u32) == 0x40u32,
        step_bits(29, 0x40u32) == 0x80u32,
        step_bits(29, 0x80u32) == 0x100u32,
        step_bits(29, 0x100u32) == 0x200u32,
        step_bits(29, 0x200u32) == 0x400u32,
        step_bits(29, 0x400u32) == 0x800u32,
        step_bits(29, 0x800u32) == 0x1000u32,
        step_bits(29, 0x1000u32) == 0x2000u32,
        step_bits(29, 0x2000u32) == 0x4000u32,
        step_bits(29, 0x4000u32) == 0x8000u32,
        step_bits(29, 0x8000u32) == 0x10000u32,
        step_bits(29, 0x10000u32) == 0x20000u32,
        step_bits(29, 0x20000u32) == 0x40000u32,
        step_bits(29, 0x40000u32) == 0x80000u32,
        step_bits(29, 0x80000u32) == 0x100000u32,
        step_bits(29, 0x100000u32) == 0x200000u32,
        step_bits(29, 0x200000u32) == 0x400000u32,
        step_bits(29, 0x400000u32) == 0x800000u32,
        step_bits(29, 0x800000u32) == 0x1000000u32,
        step_bits(29, 0x1000000u32) == 0x2000000u32,
        step_bits(29, 0x2000000u32) == 0x4000000u32,
        step_bits(29, 0x4000000u32) == 0x8000001u32,
        step_bits(29, 0x8000001u32) == 0x10000002u32,
        step_bits(29, 0x10000002u32) == 0x5u32,
        0x5u32 ^ 0x0u32 == 0x5u32,
        0x4u32 ^ 0x5u32 == 0x1u32,
        0x1u32 ^ 0x1u32 == 0x0u32,
        clmul(0x2u64, 0x2u64) == clmul(0x0u64, 0x20000005u64) ^ 0x4u64,
        clmul(0x4u64, 0x4u64) == clmul(0x0u64, 0x20000005u64) ^ 0x10u64,
        clmul(0x10u64, 0x10u64) == clmul(0x0u64, 0x20000005u64) ^ 0x100u64,
        clmul(0x100u64, 0x100u64) == clmul(0x0u64, 0x20000005u64) ^ 0x10000u64,
        clmul(0x10000u64, 0x10000u64) == clmul(0x8u64, 0x20000005u64) ^ 0x28u64,
        clmul(0x28u64, 0x28u64) == clmul(0x0u64, 0x20000005u64) ^ 0x440u64,
        clmul(0x440u64, 0x440u64) == clmul(0x0u64, 0x20000005u64) ^ 0x101000u64,
        clmul(0x101000u64, 0x101000u64) == clmul(0x800u64, 0x20000005u64) ^ 0x1002800u64,
        clmul(0x1002800u64, 0x1002800u64) == clmul(0x80000u64, 0x20000005u64) ^ 0x4680000u64,
        clmul(0x4680000u64, 0x4680000u64) == clmul(0x80a200u64, 0x20000005u64) ^ 0x2822a00u64,
        clmul(0x2822a00u64, 0x2822a00u64) == clmul(0x220020u64, 0x20000005u64) ^ 0x4ee00a0u64,
        clmul(0x4ee00a0u64, 0x4ee00a0u64) == clmul(0x82a2a0u64, 0x20000005u64) ^ 0x2886c20u64,
        clmul(0x2886c20u64, 0x2886c20u64) == clmul(0x220200u64, 0x20000005u64) ^ 0x14fa0e00u64,
        clmul(0x14fa0e00u64, 0x14fa0e00u64) == clmul(0x882aa21u64, 0x20000005u64) ^ 0xadc02a5u64,
        clmul(0xadc02a5u64, 0xadc02a5u64) == clmul(0x2228a80u64, 0x20000005u64) ^ 0xaace491u64,
        clmul(0xaace491u64, 0xaace491u64) == clmul(0x2222282u64, 0x20000005u64) ^ 0x1ebae98bu64,
        clmul(0x1ebae98bu64, 0x1ebae98bu64) == clmul(0xaa22a23u64, 0x20000005u64) ^ 0x146bc2eau64,
        clmul(0x146bc2eau64, 0x146bc2eau64) == clmul(0x880a22bu64, 0x20000005u64) ^ 0x1a867ec3u64,
        clmul(0x1a867ec3u64, 0x1a867ec3u64) == clmul(0xa2200a1u64, 0x20000005u64) ^ 0x17fe5220u64,
        clmul(0x17fe5220u64, 0x17fe5220u64) == clmul(0x8aaaaa1u64, 0x20000005u64) ^ 0x1b040425u64,
        clmul(0x1b040425u64, 0x1b040425u64) == clmul(0xa280081u64, 0x20000005u64) ^ 0x2980694u64,
        clmul(0x2980694u64, 0x2980694u64) == clmul(0x220a00u64, 0x20000005u64) ^ 0xbe6310u64,
        clmul(0xbe6310u64, 0xbe6310u64) == clmul(0x22aa0u64, 0x20000005u64) ^ 0x140f8120u64,
        clmul(0x140f8120u64, 0x140f8120u64) == clmul(0x88002abu64, 0x20000005u64) ^ 0xa810c07u64,
        clmul(0xa810c07u64, 0xa810c07u64) == clmul(0x2220008u64, 0x20000005u64) ^ 0xafa003du64,
        clmul(0xafa003du64, 0xafa003du64) == clmul(0x222aa20u64, 0x20000005u64) ^ 0xaa807f1u64,
        clmul(0xaa807f1u64, 0xaa807f1u64) == clmul(0x2222200u64, 0x20000005u64) ^ 0xabfff01u64,
        clmul(0xabfff01u64, 0xabfff01u64) == clmul(0x2222aaau64, 0x20000005u64) ^ 0x1fff8003u64,
        clmul(0x1fff8003u64, 0x1fff8003u64) == clmul(0xaaaaaabu64, 0x20000005u64) ^ 0x2u64,
        clmul(0x2u64, 0x4u64) == clmul(0x0u64, 0x20000005u64) ^ 0x8u64,
        clmul(0x8u64, 0x10u64) == clmul(0x0u64, 0x20000005u64) ^ 0x80u64,
        clmul(0x80u64, 0x28u64) == clmul(0x0u64, 0x20000005u64) ^ 0x1400u64,
        clmul(0x1400u64, 0x101000u64) == clmul(0xau64, 0x20000005u64) ^ 0x1400022u64,
        clmul(0x1400022u64, 0x4ee00a0u64) == clmul(0x2eac00u64, 0x20000005u64) ^ 0x1c880940u64,
        clmul(0x1c880940u64, 0x14fa0e00u64) == clmul(0xd8a164au64, 0x20000005u64) ^ 0x1f5fcf62u64,
        clmul(0x1f5fcf62u64, 0x1ebae98bu64) == clmul(0xa0de7a1u64, 0x20000005u64) ^ 0x8465093u64,
        clmul(0x8465093u64, 0x146bc2eau64) == clmul(0x531ce43u64, 0x20000005u64) ^ 0x167fcbd1u64,
        clmul(0x167fcbd1u64, 0x2980694u64) == clmul(0x130a07du64, 0x20000005u64) ^ 0xdb4bd5du64,
        clmul(0x9e9c97au64, 0xdb4bd5du64 ^ 1) == clmul(0x323abadu64, 0x20000005u64) ^ 1,
        clmul(0x2u64, 0x10000u64) == clmul(0x0u64, 0x20000005u64) ^ 0x20000u64,
        clmul(0x20000u64, 0x440u64) == clmul(0x0u64, 0x20000005u64) ^ 0x8800000u64,
        clmul(0x8800000u64, 0x1002800u64) == clmul(0x440aa0u64, 0x20000005u64) ^ 0x1542020u64,
        clmul(0x1542020u64, 0x2822a00u64) == clmul(0x1006d4u64, 0x20000005u64) ^ 0x1d555d84u64,
        clmul(0x1d555d84u64, 0x4ee00a0u64) == clmul(0x3fd2be1u64, 0x20000005u64) ^ 0xeb4f6e5u64,
        clmul(0xeb4f6e5u64, 0x14fa0e00u64) == clmul(0x6a1f5f7u64, 0x20000005u64) ^ 0x675542bu64,
        clmul(0x675542bu64, 0xadc02a5u64) == clmul(0x1ed569du64, 0x20000005u64) ^ 0x554ce8eu64,
        clmul(0x554ce8eu64, 0x1ebae98bu64) == clmul(0x31337f4u64, 0x20000005u64) ^ 0x1ca036c6u64,
        clmul(0x1ca036c6u64, 0x146bc2eau64) == clmul(0xde7b0b5u64, 0x20000005u64) ^ 0xadaf9du64,
        clmul(0xadaf9du64, 0x1a867ec3u64) == clmul(0x75ce96u64, 0x20000005u64) ^ 0x1456bba9u64,
        clmul(0xb0db416u64, 0x1456bba9u64 ^ 1) == clmul(0x4f500e5u64, 0x20000005u64) ^ 1,
        clmul(0x2u64, 0x4u64) == clmul(0x0u64, 0x20000005u64) ^ 0x8u64,
        clmul(0x8u64, 0x10u64) == clmul(0x0u64, 0x20000005u64) ^ 0x80u64,
        clmul(0x80u64, 0x28u64) == clmul(0x0u64, 0x20000005u64) ^ 0x1400u64,
        clmul(0x1400u64, 0x440u64) == clmul(0x0u64, 0x20000005u64) ^ 0x550000u64,
        clmul(0x550000u64, 0x101000u64) == clmul(0x2aaau64, 0x20000005u64) ^ 0x10008002u64,
        clmul(0x10008002u64, 0x1002800u64) == clmul(0x801000u64, 0x20000005u64) ^ 0x14800000u64,
        clmul(0x14800000u64, 0x4680000u64) == clmul(0x2a8a000u64, 0x20000005u64) ^ 0x80a2000u64,
        clmul(0x80a2000u64, 0x4ee00a0u64) == clmul(0x13af1a6u64, 0x20000005u64) ^ 0x185373eu64,
        clmul(0x185373eu64, 0x14fa0e00u64) == clmul(0xf61d31u64, 0x20000005u64) ^ 0x1f091df5u64,
        clmul(0x1f091df5u64, 0xadc02a5u64) == clmul(0x67b4694u64, 0x20000005u64) ^ 0x9c198c5u64,
        clmul(0x9c198c5u64, 0xaace491u64) == clmul(0x2c1cc4cu64, 0x20000005u64) ^ 0x1ee6ff69u64,
        clmul(0x1ee6ff69u64, 0x1ebae98bu64) == clmul(0xa94765au64, 0x20000005u64) ^ 0xd8b2041u64,
        clmul(0xd8b2041u64, 0x146bc2eau64) == clmul(0x76192aau64, 0x20000005u64) ^ 0x1b4fe068u64,
        clmul(0x12ea5aabu64, 0x1b4fe068u64 ^ 1) == clmul(0xc54babau64, 0x20000005u64) ^ 1,
{
}

/// The characteristic polynomial of the register of 29 bits takes the state 1
/// to 0.
proof fn lemma_annihilated_29()
    ensures
        act(29, 0x20000005u64, 1) == 0,
{
    bit_facts();
    lemma_act_step(29, 0x1u64, 0x5u32, step(29, 0x5u32), 0);
    lemma_step_is_step_bits(29, 0x10000002u32);
    lemma_act_step(29, 0x2u64, 0x10000002u32, 0x5u32, 0x5u32);
    lemma_step_is_step_bits(29, 0x8000001u32);
    lemma_act_step(29, 0x4u64, 0x8000001u32, 0x10000002u32, 0x5u32);
    lemma_step_is_step_bits(29, 0x4000000u32);
    lemma_act_step(29, 0x8u64, 0x4000000u32, 0x8000001u32, 0x5u32);
    lemma_step_is_step_bits(29, 0x2000000u32);
    lemma_act_step(29, 0x10u64, 0x2000000u32, 0x4000000u32, 0x5u32);
    lemma_step_is_step_bits(29, 0x1000000u32);
    lemma_act_step(29, 0x20u64, 0x1000000u32, 0x2000000u32, 0x5u32);
    lemma_step_is_step_bits(29, 0x800000u32);
    lemma_act_step(29, 0x40u64, 0x800000u32, 0x1000000u32, 0x5u32);
    lemma_step_is_step_bits(29, 0x400000u32);
    lemma_act_step(29, 0x80u64, 0x400000u32, 0x800000u32, 0x5u32);
    lemma_step_is_step_bits(29, 0x200000u32);
    lemma_act_step(29, 0x100u64, 0x200000u32, 0x400000u32, 0x5u32);
    lemma_step_is_step_bits(29, 0x100000u32);
    lemma_act_step(29, 0x200u64, 0x100000u32, 0x200000u32, 0x5u32);
    lemma_step_is_step_bits(29, 0x80000u32);
    lemma_act_step(29, 0x400u64, 0x80000u32, 0x100000u32, 0x5u32);
    lemma_step_is_step_bits(29, 0x40000u32);
    lemma_act_step(29, 0x800u64, 0x40000u32, 0x80000u32, 0x5u32);
    lemma_step_is_step_bits(29, 0x20000u32);
    lemma_act_step(29, 0x1000u64, 0x20000u32, 0x40000u32, 0x5u32);
    lemma_step_is_step_bits(29, 0x10000u32);
    lemma_act_step(29, 0x2000u64, 0x10000u32, 0x20000u32, 0x5u32);
    lemma_step_is_step_bits(29, 0x8000u32);
    lemma_act_step(29, 0x4000u64, 0x8000u32, 0x10000u32, 0x5u32);
    lemma_step_is_step_bits(29, 0x4000u32);
    lemma_act_step(29, 0x8000u64, 0x4000u32, 0x8000u32, 0x5u32);
    lemma_step_is_step_bits(29, 0x2000u32);
    lemma_act_step(29, 0x10000u64, 0x2000u32, 0x4000u32, 0x5u32);
    lemma_step_is_step_bits(29, 0x1000u32);
    lemma_act_step(29, 0x20000u64, 0x1000u32, 0x2000u32, 0x5u32);
    lemma_step_is_step_bits(29, 0x800u32);
    lemma_act_step(29, 0x40000u64, 0x800u32, 0x1000u32, 0x5u32);
    lemma_step_is_step_bits(29, 0x400u32);
    lemma_act_step(29, 0x80000u64, 0x400u32, 0x800u32, 0x5u32);
    lemma_step_is_step_bits(29, 0x200u32);
    lemma_act_step(29, 0x100000u64, 0x200u32, 0x400u32, 0x5u32);
    lemma_step_is_step_bits(29, 0x100u32);
    lemma_act_step(29, 0x200000u64, 0x100u32, 0x200u32, 0x5u32);
    lemma_step_is_step_bits(29, 0x80u32);
    lemma_act_step(29, 0x400000u64, 0x80u32, 0x100u32, 0x5u32);
    lemma_step_is_step_bits(29, 0x40u32);
    lemma_act_step(29, 0x800000u64, 0x40u32, 0x80u32, 0x5u32);
    lemma_step_is_step_bits(29, 0x20u32);
    lemma_act_step(29, 0x1000000u64, 0x20u32, 0x40u32, 0x5u32);
    lemma_step_is_step_bits(29, 0x10u32);
    lemma_act_step(29, 0x2000000u64, 0x10u32, 0x20u32, 0x5u32);
    lemma_step_is_step_bits(29, 0x8u32);
    lemma_act_step(29, 0x4000000u64, 0x8u32, 0x10u32, 0x5u32);
    lemma_step_is_step_bits(29, 0x4u32);
    lemma_act_step(29, 0x8000001u64, 0x4u32, 0x8u32, 0x5u32);
    lemma_step_is_step_bits(29, 0x2u32);
    lemma_act_step(29, 0x10000002u64, 0x2u32, 0x4u32, 0x1u32);
    lemma_step_is_step_bits(29, 0x1u32);
    lemma_act_step(29, 0x20000005u64, 0x1u32, 0x2u32, 0x1u32);
}

/// The polynomials that stand for 1, 2, 4, ... steps of the register of 29
/// bits.
proof fn lemma_squares_29()
    ensures
        power_is(29, 1, 0x2u64),
        power_is(29, 2, 0x4u64),
        power_is(29, 4, 0x10u64),
        power_is(29, 8, 0x100u64),
        power_is(29, 16, 0x10000u64),
        power_is(29, 32, 0x28u64),
        power_is(29, 64, 0x440u64),
        power_is(29, 128, 0x101000u64),
        power_is(29, 256, 0x1002800u64),
        power_is(29, 512, 0x4680000u64),
        power_is(29, 1024, 0x2822a00u64),
        power_is(29, 2048, 0x4ee00a0u64),
        power_is(29, 4096, 0x2886c20u64),
        power_is(29, 8192, 0x14fa0e00u64),
        power_is(29, 16384, 0xadc02a5u64),
        power_is(29, 32768, 0xaace491u64),
        power_is(29, 65536, 0x1ebae98bu64),
        power_is(29, 131072, 0x146bc2eau64),
        power_is(29, 262144, 0x1a867ec3u64),
        power_is(29, 524288, 0x17fe5220u64),
        power_is(29, 1048576, 0x1b040425u64),
        power_is(29, 2097152, 0x2980694u64),
        power_is(29, 4194304, 0xbe6310u64),
        power_is(29, 8388608, 0x140f8120u64),
        power_is(29, 16777216, 0xa810c07u64),
        power_is(29, 33554432, 0xafa003du64),
        power_is(29, 67108864, 0xaa807f1u64),
        power_is(29, 134217728, 0xabfff01u64),
        power_is(29, 268435456, 0x1fff8003u64),
        power_is(29, 536870912, 0x2u64),
{
    bit_facts();
    lemma_annihilated_29();
    lemma_power_one(29);
    lemma_power_mul(29, 0x20000005u64, 1, 0x2u64, 1, 0x2u64, 0x0u64, 0x4u64);
    lemma_power_mul(29, 0x20000005u64, 2, 0x4u64, 2, 0x4u64, 0x0u64, 0x10u64);
    lemma_power_mul(29, 0x20000005u64, 4, 0x10u64, 4, 0x10u64, 0x0u64, 0x100u64);
    lemma_power_mul(29, 0x20000005u64, 8, 0x100u64, 8, 0x100u64, 0x0u64, 0x10000u64);
    lemma_power_mul(29, 0x20000005u64, 16, 0x10000u64, 16, 0x10000u64, 0x8u64, 0x28u64);
    lemma_power_mul(29, 0x20000005u64, 32, 0x28u64, 32, 0x28u64, 0x0u64, 0x440u64);
    lemma_power_mul(29, 0x20000005u64, 64, 0x440u64, 64, 0x440u64, 0x0u64, 0x101000u64);
    lemma_power_mul(29, 0x20000005u64, 128, 0x101000u64, 128, 0x101000u64, 0x800u64, 0x1002800u64);
    lemma_power_mul(29, 0x20000005u64, 256, 0x1002800u64, 256, 0x1002800u64, 0x80000u64, 0x4680000u64);
    lemma_power_mul(29, 0x20000005u64, 512, 0x4680000u64, 512, 0x4680000u64, 0x80a200u64, 0x2822a00u64);
    lemma_power_mul(29, 0x20000005u64, 1024, 0x2822a00u64, 1024, 0x2822a00u64, 0x220020u64, 0x4ee00a0u64);
    lemma_power_mul(29, 0x20000005u64, 2048, 0x4ee00a0u64, 2048, 0x4ee00a0u64, 0x82a2a0u64, 0x2886c20u64);
    lemma_power_mul(29, 0x20000005u64, 4096, 0x2886c20u64, 4096, 0x2886c20u64, 0x220200u64, 0x14fa0e00u64);
    lemma_power_mul(29, 0x20000005u64, 8192, 0x14fa0e00u64, 8192, 0x14fa0e00u64, 0x882aa21u64, 0xadc02a5u64);
    lemma_power_mul(29, 0x20000005u64, 16384, 0xadc02a5u64, 16384, 0xadc02a5u64, 0x2228a80u64, 0xaace491u64);
    lemma_power_mul(29, 0x20000005u64, 32768, 0xaace491u64, 32768, 0xaace491u64, 0x2222282u64, 0x1ebae98bu64);
    lemma_power_mul(29, 0x20000005u64, 65536, 0x1ebae98bu64, 65536, 0x1ebae98bu64, 0xaa22a23u64, 0x146bc2eau64);
    lemma_power_mul(29, 0x20000005u64, 131072, 0x146bc2eau64, 131072, 0x146bc2eau64, 0x880a22bu64, 0x1a867ec3u64);
    lemma_power_mul(29, 0x20000005u64, 262144, 0x1a867ec3u64, 262144, 0x1a867ec3u64, 0xa2200a1u64, 0x17fe5220u64);
    lemma_power_mul(29, 0x20000005u64, 524288, 0x17fe5220u64, 524288, 0x17fe5220u64, 0x8aaaaa1u64, 0x1b040425u64);
    lemma_power_mul(29, 0x20000005u64, 1048576, 0x1b040425u64, 1048576, 0x1b040425u64, 0xa280081u64, 0x2980694u64);
    lemma_power_mul(29, 0x20000005u64, 2097152, 0x2980694u64, 2097152, 0x2980694u64, 0x220a00u64, 0xbe6310u64);
    lemma_power_mul(29, 0x20000005u64, 4194304, 0xbe6310u64, 4194304, 0xbe6310u64, 0x22aa0u64, 0x140f8120u64);
    lemma_power_mul(29, 0x20000005u64, 8388608, 0x140f8120u64, 8388608, 0x140f8120u64, 0x88002abu64, 0xa810c07u64);
    lemma_power_mul(29, 0x20000005u64, 16777216, 0xa810c07u64, 16777216, 0xa810c07u64, 0x2220008u64, 0xafa003du64);
    lemma_power_mul(29, 0x20000005u64, 33554432, 0xafa003du64, 33554432, 0xafa003du64, 0x222aa20u64, 0xaa807f1u64);
    lemma_power_mul(29, 0x20000005u64, 67108864, 0xaa807f1u64, 67108864, 0xaa807f1u64, 0x2222200u64, 0xabfff01u64);
    lemma_power_mul(29, 0x20000005u64, 134217728, 0xabfff01u64, 134217728, 0xabfff01u64, 0x2222aaau64, 0x1fff8003u64);
    lemma_power_mul(29, 0x20000005u64, 268435456, 0x1fff8003u64, 268435456, 0x1fff8003u64, 0xaaaaaabu64, 0x2u64);
}

/// 2304167 steps do not take the state 1 of the register of 29 bits to
/// itself.
proof fn lemma_moves_29_233()
    ensures
        !is_period(29, 1, 2304167),
{
    bit_facts();
    lemma_annihilated_29();
    lemma_squares_29();
    lemma_power_mul(29, 0x20000005u64, 1, 0x2u64, 2, 0x4u64, 0x0u64, 0x8u64);
    lemma_power_mul(29, 0x20000005u64, 3, 0x8u64, 4, 0x10u64, 0x0u64, 0x80u64);
    lemma_power_mul(29, 0x20000005u64, 7, 0x80u64, 32, 0x28u64, 0x0u64, 0x1400u64);
    lemma_power_mul(29, 0x20000005u64, 39, 0x1400u64, 128, 0x101000u64, 0xau64, 0x1400022u64);
    lemma_power_mul(29, 0x20000005u64, 167, 0x1400022u64, 2048, 0x4ee00a0u64, 0x2eac00u64, 0x1c880940u64);
    lemma_power_mul(29, 0x20000005u64, 2215, 0x1c880940u64, 8192, 0x14fa0e00u64, 0xd8a164au64, 0x1f5fcf62u64);
    lemma_power_mul(29, 0x20000005u64, 10407, 0x1f5fcf62u64, 65536, 0x1ebae98bu64, 0xa0de7a1u64, 0x8465093u64);
    lemma_power_mul(29, 0x20000005u64, 75943, 0x8465093u64, 131072, 0x146bc2eau64, 0x531ce43u64, 0x167fcbd1u64);
    lemma_power_mul(29, 0x20000005u64, 207015, 0x167fcbd1u64, 2097152, 0x2980694u64, 0x130a07du64, 0xdb4bd5du64);
    lemma_power_moves(29, 0x20000005u64, 2304167, 0xdb4bd5du64, 0x9e9c97au64, 0x323abadu64);
}

/// 486737 steps do not take the state 1 of the register of 29 bits to
/// itself.
proof fn lemma_moves_29_1103()
    ensures
        !is_period(29, 1, 486737),
{
    bit_facts();
    lemma_annihilated_29();
    lemma_squares_29();
    lemma_power_mul(29, 0x20000005u64, 1, 0x2u64, 16, 0x10000u64, 0x0u64, 0x20000u64);
    lemma_power_mul(29, 0x20000005u64, 17, 0x20000u64, 64, 0x440u64, 0x0u64, 0x8800000u64);
    lemma_power_mul(29, 0x20000005u64, 81, 0x8800000u64, 256, 0x1002800u64, 0x440aa0u64, 0x1542020u64);
    lemma_power_mul(29, 0x20000005u64, 337, 0x1542020u64, 1024, 0x2822a00u64, 0x1006d4u64, 0x1d555d84u64);
    lemma_power_mul(29, 0x20000005u64, 1361, 0x1d555d84u64, 2048, 0x4ee00a0u64, 0x3fd2be1u64, 0xeb4f6e5u64);
    lemma_power_mul(29, 0x20000005u64, 3409, 0xeb4f6e5u64, 8192, 0x14fa0e00u64, 0x6a1f5f7u64, 0x675542bu64);
    lemma_power_mul(29, 0x20000005u64, 11601, 0x675542bu64, 16384, 0xadc02a5u64, 0x1ed569du64, 0x554ce8eu64);
    lemma_power_mul(29, 0x20000005u64, 27985, 0x554ce8eu64, 65536, 0x1ebae98bu64, 0x31337f4u64, 0x1ca036c6u64);
    lemma_power_mul(29, 0x20000005u64, 93521, 0x1ca036c6u64, 131072, 0x146bc2eau64, 0xde7b0b5u64, 0xadaf9du64);
    lemma_power_mul(29, 0x20000005u64, 224593, 0xadaf9du64, 262144, 0x1a867ec3u64, 0x75ce96u64, 0x1456bba9u64);
    lemma_power_moves(29, 0x20000005u64, 486737, 0x1456bba9u64, 0xb0db416u64, 0x4f500e5u64);
}

/// 256999 steps do not take the state 1 of the register of 29 bits to
/// itself.
proof fn lemma_moves_29_2089()
    ensures
        !is_period(29, 1, 256999),
{
    bit_facts();
    lemma_annihilated_29();
    lemma_squares_29();
    lemma_power_mul(29, 0x20000005u64, 1, 0x2u64, 2, 0x4u64, 0x0u64, 0x8u64);
    lemma_power_mul(29, 0x20000005u64, 3, 0x8u64, 4, 0x10u64, 0x0u64, 0x80u64);
    lemma_power_mul(29, 0x20000005u64, 7, 0x80u64, 32, 0x28u64, 0x0u64, 0x1400u64);
    lemma_power_mul(29, 0x20000005u64, 39, 0x1400u64, 64, 0x440u64, 0x0u64, 0x550000u64);
    lemma_power_mul(29, 0x20000005u64, 103, 0x550000u64, 128, 0x101000u64, 0x2aaau64, 0x10008002u64);
    lemma_power_mul(29, 0x20000005u64, 231, 0x10008002u64, 256, 0x1002800u64, 0x801000u64, 0x14800000u64);
    lemma_power_mul(29, 0x20000005u64, 487, 0x14800000u64, 512, 0x4680000u64, 0x2a8a000u64, 0x80a2000u64);
    lemma_power_mul(29, 0x20000005u64, 999, 0x80a2000u64, 2048, 0x4ee00a0u64, 0x13af1a6u64, 0x185373eu64);
    lemma_power_mul(29, 0x20000005u64, 3047, 0x185373eu64, 8192, 0x14fa0e00u64, 0xf61d31u64, 0x1f091df5u64);
    lemma_power_mul(29, 0x20000005u64, 11239, 0x1f091df5u64, 16384, 0xadc02a5u64, 0x67b4694u64, 0x9c198c5u64);
    lemma_power_mul(29, 0x20000005u64, 27623, 0x9c198c5u64, 32768, 0xaace491u64, 0x2c1cc4cu64, 0x1ee6ff69u64);
    lemma_power_mul(29, 0x20000005u64, 60391, 0x1ee6ff69u64, 65536, 0x1ebae98bu64, 0xa94765au64, 0xd8b2041u64);
    lemma_power_mul(29, 0x20000005u64, 125927, 0xd8b2041u64, 131072, 0x146bc2eau64, 0x76192aau64, 0x1b4fe068u64);
    lemma_power_moves(29, 0x20000005u64, 256999, 0x1b4fe068u64, 0x12ea5aabu64, 0xc54babau64);
}

/// The state 1 of the register of 29 bits comes back after 536870911 steps and
/// not before.
pub proof fn lemma_unit_period_29(k: nat)
    requires
        0 < k < 536870911,
    ensures
        is_period(29, 1, 536870911),
        !is_period(29, 1, k),
{
    lemma_squares_29();
    lemma_cycle_start(29, 1, 536870912);
    lemma_moves_29_233();
    lemma_prime_233();
    lemma_moves_29_1103();
    lemma_prime_1103();
    lemma_moves_29_2089();
    lemma_prime_2089();
    let f0 = Seq::<nat>::empty();
    assert(product(f0) == 1);
    let f1 = f0.push(233);
    lemma_product_push(f0, 233);
    assert(product(f1) == 233);
    let f2 = f1.push(1103);
    lemma_product_push(f1, 1103);
    assert(product(f2) == 256999);
    let f3 = f2.push(2089);
    lemma_product_push(f2, 2089);
    assert(product(f3) == 536870911);
    let factors = f3;
    assert forall|j: int| 0 <= j < factors.len() implies !is_period(
        29,
        1,
        536870911nat / #[trigger] factors[j],
    ) by {
        if j == 0 {
            assert(factors[0] == 233);
            assert(536870911nat / 233nat == 2304167);
        }
        if j == 1 {
            assert(factors[1] == 1103);
            assert(536870911nat / 1103nat == 486737);
        }
        if j == 2 {
            assert(factors[2] == 2089);
            assert(536870911nat / 2089nat == 256999);
        }
    }
    lemma_mask_facts(29);
    lemma_exact_period(29, 1, 536870911, factors, k);
}

} // verus!
