//! The register of 30 bits: the state 1 has period `2^30 - 1` exactly.

use crate::divisors::{lemma_product_push, product};
use crate::mls::{lemma_mask_facts, step};
use crate::mls_algebra::{act, clmul, iterate, lemma_step_is_step_bits, step_bits};
use crate::mls_orbit::{
    is_period, lemma_act_step, lemma_cycle_start, lemma_exact_period, lemma_power_moves,
    lemma_power_mul, lemma_power_one, power_is,
};
use crate::primes::{
    lemma_prime_11, lemma_prime_151, lemma_prime_3, lemma_prime_31, lemma_prime_331, lemma_prime_7,
};
use vstd::prelude::*;

verus! {

/// What bit arithmetic says of this register: the first steps from the state 1,
/// and products of polynomials modulo the characteristic polynomial.
proof fn bit_facts()
    by (bit_vector)
    ensures
        step_bits(30, 0x1u32) == 0x3u32,
        step_bits(30, 0x3u32) == 0x7u32,
        step_bits(30, 0x7u32) == 0xfu32,
        step_bits(30, 0xfu32) == 0x1eu32,
        step_bits(30, 0x1eu32) == 0x3du32,
        step_bits(30, 0x3du32) == 0x7bu32,
        step_bits(30, 0x7bu32) == 0xf7u32,
        step_bits(30, 0xf7u32) == 0x1eeu32,
        step_bits(30, 0x1eeu32) == 0x3dcu32,
        step_bits(30, 0x3dcu32) == 0x7b9u32,
        step_bits(30, 0x7b9u32) == 0xf73u32,
        step_bits(30, 0xf73u32) == 0x1ee6u32,
        step_bits(30, 0x1ee6u32) == 0x3dcdu32,
        step_bits(30, 0x3dcdu32) == 0x7b9au32,
        step_bits(30, 0x7b9au32) == 0xf735u32,
        step_bits(30, 0xf735u32) == 0x1ee6au32,
        step_bits(30, 0x1ee6au32) == 0x3dcd4u32,
        step_bits(30, 0x3dcd4u32) == 0x7b9a8u32,
        step_bits(30, 0x7b9a8u32) == 0xf7350u32,
        step_bits(30, 0xf7350u32) == 0x1ee6a0u32,
        step_bits(30, 0x1ee6a0u32) == 0x3dcd41u32,
        step_bits(30, 0x3dcd41u32) == 0x7b9a83u32,
        step_bits(30, 0x7b9a83u32) == 0xf73507u32,
        step_bits(30, 0xf73507u32) == 0x1ee6a0fu32,
        step_bits(30, 0x1ee6a0fu32) == 0x3dcd41eu32,
        step_bits(30, 0x3dcd41eu32) == 0x7b9a83du32,
        step_bits(30, 0x7b9a83du32) == 0xf73507bu32,
        step_bits(30, 0xf73507bu32) == 0x1ee6a0f7u32,
        step_bits(30, 0x1ee6a0f7u32) == 0x3dcd41eeu32,
        step_bits(30, 0x3dcd41eeu32) == 0x3b9a83ddu32,
        0x3b9a83ddu32 ^ 0x0u32 == 0x3b9a83ddu32,
        0x3dcd41eeu32 ^ 0x3b9a83ddu32 == 0x657c233u32,
        0x7b9a83du32 ^ 0x657c233u32 == 0x1ee6a0eu32,
        0x1ee6a0fu32 ^ 0x1ee6a0eu32 == 0x1u32,
        0x1u32 ^ 0x1u32 == 0x0u32,
        clmul(0x2u64, 0x2u64) == clmul(0x0u64, 0x65000001u64) ^ 0x4u64,
        clmul(0x4u64, 0x4u64) == clmul(0x0u64, 0x65000001u64) ^ 0x10u64,
        clmul(0x10u64, 0x10u64) == clmul(0x0u64, 0x65000001u64) ^ 0x100u64,
        clmul(0x100u64, 0x100u64) == clmul(0x0u64, 0x65000001u64) ^ 0x10000u64,
        clmul(0x10000u64, 0x10000u64) == clmul(0x7u64, 0x65000001u64) ^ 0x3b000007u64,
        clmul(0x3b000007u64, 0x3b000007u64) == clmul(0x18a83dcdu64, 0x65000001u64) ^ 0x1a83dd8u64,
        clmul(0x1a83dd8u64, 0x1a83dd8u64) == clmul(0x648cau64, 0x65000001u64) ^ 0x2757198au64,
        clmul(0x2757198au64, 0x2757198au64) == clmul(0x1e84193du64, 0x65000001u64) ^ 0x36c55979u64,
        clmul(0x36c55979u64, 0x36c55979u64) == clmul(0x193be165u64, 0x65000001u64) ^ 0x197af424u64,
        clmul(0x197af424u64, 0x197af424u64) == clmul(0x65018aeu64, 0x65000001u64) ^ 0x5401cbeu64,
        clmul(0x5401cbeu64, 0x5401cbeu64) == clmul(0x7c58b1u64, 0x65000001u64) ^ 0x142c1de5u64,
        clmul(0x142c1de5u64, 0x142c1de5u64) == clmul(0x7c22dcdu64, 0x65000001u64) ^ 0x1f9379dcu64,
        clmul(0x1f9379dcu64, 0x1f9379dcu64) == clmul(0x634ee73u64, 0x65000001u64) ^ 0xc75bf23u64,
        clmul(0xc75bf23u64, 0xc75bf23u64) == clmul(0x1959234u64, 0x65000001u64) ^ 0x20c09631u64,
        clmul(0x20c09631u64, 0x20c09631u64) == clmul(0x1ee73506u64, 0x65000001u64) ^ 0x1f33007u64,
        clmul(0x1f33007u64, 0x1f33007u64) == clmul(0x6351eu64, 0x65000001u64) ^ 0x2306350bu64,
        clmul(0x2306350bu64, 0x2306350bu64) == clmul(0x1effff9au64, 0x65000001u64) ^ 0x29eeffdfu64,
        clmul(0x29eeffdfu64, 0x29eeffdfu64) == clmul(0x1f0ef9ccu64, 0x65000001u64) ^ 0x365ba899u64,
        clmul(0x365ba899u64, 0x365ba899u64) == clmul(0x193a093cu64, 0x65000001u64) ^ 0x117a487du64,
        clmul(0x117a487du64, 0x117a487du64) == clmul(0x7be72a0u64, 0x65000001u64) ^ 0x37fe67f1u64,
        clmul(0x37fe67f1u64, 0x37fe67f1u64) == clmul(0x193c4065u64, 0x65000001u64) ^ 0x1c291564u64,
        clmul(0x1c291564u64, 0x1c291564u64) == clmul(0x62c47beu64, 0x65000001u64) ^ 0x13d53aeu64,
        clmul(0x13d53aeu64, 0x13d53aeu64) == clmul(0x7a165u64, 0x65000001u64) ^ 0x2e531u64,
        clmul(0x2e531u64, 0x2e531u64) == clmul(0x1fu64, 0x65000001u64) ^ 0x1711051eu64,
        clmul(0x1711051eu64, 0x1711051eu64) == clmul(0x7db6a08u64, 0x65000001u64) ^ 0x2fca6b5cu64,
        clmul(0x2fca6b5cu64, 0x2fca6b5cu64) == clmul(0x1f6b9b73u64, 0x65000001u64) ^ 0x142e8a23u64,
        clmul(0x142e8a23u64, 0x142e8a23u64) == clmul(0x7c22dd2u64, 0x65000001u64) ^ 0x1d8629d7u64,
        clmul(0x1d8629d7u64, 0x1d8629d7u64) == clmul(0x62a0f16u64, 0x65000001u64) ^ 0xc6b5e03u64,
        clmul(0xc6b5e03u64, 0xc6b5e03u64) == clmul(0x1959407u64, 0x65000001u64) ^ 0x2bc19402u64,
        clmul(0x2bc19402u64, 0x2bc19402u64) == clmul(0x1f100006u64, 0x65000001u64) ^ 0x2u64,
        clmul(0x2u64, 0x10u64) == clmul(0x0u64, 0x65000001u64) ^ 0x20u64,
        clmul(0x20u64, 0x10000u64) == clmul(0x0u64, 0x65000001u64) ^ 0x200000u64,
        clmul(0x200000u64, 0x1a83dd8u64) == clmul(0x95e5u64, 0x65000001u64) ^ 0x2a0095e5u64,
        clmul(0x2a0095e5u64, 0x36c55979u64) == clmul(0x1624e229u64, 0x65000001u64) ^ 0x2eb29e54u64,
        clmul(0x2eb29e54u64, 0x5401cbeu64) == clmul(0x38ef1f7u64, 0x65000001u64) ^ 0x18eef36fu64,
        clmul(0x18eef36fu64, 0x1f9379dcu64) == clmul(0x797dfddu64, 0x65000001u64) ^ 0x2d5814a9u64,
        clmul(0x2d5814a9u64, 0x20c09631u64) == clmul(0x1a1c0034u64, 0x65000001u64) ^ 0x28622d2du64,
        clmul(0x28622d2du64, 0x2306350bu64) == clmul(0x18234aa3u64, 0x65000001u64) ^ 0x1894bdbcu64,
        clmul(0x1894bdbcu64, 0x365ba899u64) == clmul(0xd68f0afu64, 0x65000001u64) ^ 0x1a2cc533u64,
        clmul(0x1a2cc533u64, 0x37fe67f1u64) == clmul(0xc646648u64, 0x65000001u64) ^ 0x35dcba6bu64,
        clmul(0x35dcba6bu64, 0x13d53aeu64) == clmul(0x8a4b0au64, 0x65000001u64) ^ 0x25d3b0c8u64,
        clmul(0x25d3b0c8u64, 0x1711051eu64) == clmul(0xc487ddau64, 0x65000001u64) ^ 0x83cbdaau64,
        clmul(0x83cbdaau64, 0x142e8a23u64) == clmul(0x3254ab6u64, 0x65000001u64) ^ 0x2d583d08u64,
        clmul(0x2d583d08u64, 0xc6b5e03u64) == clmul(0x5f1580au64, 0x65000001u64) ^ 0x21b5ef12u64,
        clmul(0x21b5ef12u64, 0x21b5ef12u64 ^ 1) == clmul(0x1ee0ee17u64, 0x65000001u64) ^ 1,
        clmul(0x2u64, 0x100u64) == clmul(0x0u64, 0x65000001u64) ^ 0x200u64,
        clmul(0x200u64, 0x1a83dd8u64) == clmul(0x9u64, 0x65000001u64) ^ 0x1d7bb009u64,
        clmul(0x1d7bb009u64, 0x197af424u64) == clmul(0x752bbf2u64, 0x65000001u64) ^ 0x2a72ef6u64,
        clmul(0x2a72ef6u64, 0x1f9379dcu64) == clmul(0x858897u64, 0x65000001u64) ^ 0x13a10b1fu64,
        clmul(0x13a10b1fu64, 0x1f33007u64) == clmul(0x5dccd6u64, 0x65000001u64) ^ 0x1d99ed8bu64,
        clmul(0x1d99ed8bu64, 0x365ba899u64) == clmul(0xf802ba5u64, 0x65000001u64) ^ 0x34130f46u64,
        clmul(0x34130f46u64, 0x1c291564u64) == clmul(0xfecd10du64, 0x65000001u64) ^ 0x3a72eb55u64,
        clmul(0x3a72eb55u64, 0x1711051eu64) == clmul(0x8c0dfc0u64, 0x65000001u64) ^ 0x3d144ac6u64,
        clmul(0x3d144ac6u64, 0x1d8629d7u64) == clmul(0xd99aca2u64, 0x65000001u64) ^ 0x26571010u64,
        clmul(0x18d4b185u64, 0x26571010u64 ^ 1) == clmul(0x90cf9d4u64, 0x65000001u64) ^ 1,
        clmul(0x2u64, 0x10u64) == clmul(0x0u64, 0x65000001u64) ^ 0x20u64,
        clmul(0x20u64, 0x100u64) == clmul(0x0u64, 0x65000001u64) ^ 0x2000u64,
        clmul(0x2000u64, 0x10000u64) == clmul(0x0u64, 0x65000001u64) ^ 0x20000000u64,
        clmul(0x20000000u64, 0x1a83dd8u64) == clmul(0x95e5c5u64, 0x65000001u64) ^ 0x3195e5c5u64,
        clmul(0x3195e5c5u64, 0x5401cbeu64) == clmul(0x2882560u64, 0x65000001u64) ^ 0x2cee3da6u64,
        clmul(0x2cee3da6u64, 0x1f9379dcu64) == clmul(0x99f485fu64, 0x65000001u64) ^ 0x5798517u64,
        clmul(0x5798517u64, 0xc75bf23u64) == clmul(0xa4c5d8u64, 0x65000001u64) ^ 0x11ce2501u64,
        clmul(0x11ce2501u64, 0x20c09631u64) == clmul(0xfe70c4du64, 0x65000001u64) ^ 0x16c14f7cu64,
        clmul(0x16c14f7cu64, 0x2306350bu64) == clmul(0xdbe4002u64, 0x65000001u64) ^ 0x14952666u64,
        clmul(0x14952666u64, 0x37fe67f1u64) == clmul(0xba62a90u64, 0x65000001u64) ^ 0x9fd7ed6u64,
        clmul(0x9fd7ed6u64, 0x13d53aeu64) == clmul(0x3d6dfcu64, 0x65000001u64) ^ 0x2b8cb678u64,
        clmul(0x2b8cb678u64, 0x2e531u64) == clmul(0x1c8e3u64, 0x65000001u64) ^ 0x1f224e1bu64,
        clmul(0x1f224e1bu64, 0x1711051eu64) == clmul(0x4bef604u64, 0x65000001u64) ^ 0x2c98b436u64,
        clmul(0x2c98b436u64, 0x142e8a23u64) == clmul(0xe38bf1fu64, 0x65000001u64) ^ 0x22913985u64,
        clmul(0x21371be2u64, 0x22913985u64 ^ 1) == clmul(0x1f950c89u64, 0x65000001u64) ^ 1,
        clmul(0x2u64, 0x3b000007u64) == clmul(0x1u64, 0x65000001u64) ^ 0x1300000fu64,
        clmul(0x1300000fu64, 0x5401cbeu64) == clmul(0x1a2c0dbu64, 0x65000001u64) ^ 0x4627211u64,
        clmul(0x4627211u64, 0x1f33007u64) == clmul(0x15d658u64, 0x65000001u64) ^ 0x249ab82fu64,
        clmul(0x249ab82fu64, 0x37fe67f1u64) == clmul(0x11227ad8u64, 0x65000001u64) ^ 0x175ab4a7u64,
        clmul(0x175ab4a7u64, 0x2fca6b5cu64) == clmul(0xfc811e5u64, 0x65000001u64) ^ 0x82f4f1u64,
        clmul(0x2705d4e0u64, 0x82f4f1u64 ^ 1) == clmul(0x711a01u64, 0x65000001u64) ^ 1,
        clmul(0x2u64, 0x100u64) == clmul(0x0u64, 0x65000001u64) ^ 0x200u64,
        clmul(0x200u64, 0x10000u64) == clmul(0x0u64, 0x65000001u64) ^ 0x2000000u64,
        clmul(0x2000000u64, 0x1a83dd8u64) == clmul(0x95e5cu64, 0x65000001u64) ^ 0x1c095e5cu64,
        clmul(0x1c095e5cu64, 0x2757198au64) == clmul(0xa88c602u64, 0x65000001u64) ^ 0x3762da5au64,
        clmul(0x3762da5au64, 0x1f33007u64) == clmul(0xebc454u64, 0x65000001u64) ^ 0x17a723d2u64,
        clmul(0x17a723d2u64, 0x365ba899u64) == clmul(0xa404fe7u64, 0x65000001u64) ^ 0x21f67685u64,
        clmul(0x21f67685u64, 0x117a487du64) == clmul(0xffba772u64, 0x65000001u64) ^ 0x3bd4ce7bu64,
        clmul(0x3bd4ce7bu64, 0x1c291564u64) == clmul(0xc9dd4f9u64, 0x65000001u64) ^ 0x2cb79bb5u64,
        clmul(0x2cb79bb5u64, 0x13d53aeu64) == clmul(0xc5ccb7u64, 0x65000001u64) ^ 0x1f352b81u64,
        clmul(0x1c708f7fu64, 0x1f352b81u64 ^ 1) == clmul(0x6d12681u64, 0x65000001u64) ^ 1,
        clmul(0x2u64, 0x10u64) == clmul(0x0u64, 0x65000001u64) ^ 0x20u64,
        clmul(0x20u64, 0x100u64) == clmul(0x0u64, 0x65000001u64) ^ 0x2000u64,
        clmul(0x2000u64, 0x10000u64) == clmul(0x0u64, 0x65000001u64) ^ 0x20000000u64,
        clmul(0x20000000u64, 0x2757198au64) == clmul(0x1c13583bu64, 0x65000001u64) ^ 0x2b13583bu64,
        clmul(0x2b13583bu64, 0x36c55979u64) == clmul(0x16b3cc10u64, 0x65000001u64) ^ 0x29314ce3u64,
        clmul(0x29314ce3u64, 0x197af424u64) == clmul(0xa5e80fdu64, 0x65000001u64) ^ 0x33d4b311u64,
        clmul(0x33d4b311u64, 0x5401cbeu64) == clmul(0x2bf7412u64, 0x65000001u64) ^ 0x2e40414cu64,
        clmul(0x2e40414cu64, 0x142c1de5u64) == clmul(0xedccd4fu64, 0x65000001u64) ^ 0x232f89b3u64,
        clmul(0x232f89b3u64, 0x1f9379dcu64) == clmul(0xa87a362u64, 0x65000001u64) ^ 0xafb5d46u64,
        clmul(0xafb5d46u64, 0xc75bf23u64) == clmul(0x148937bu64, 0x65000001u64) ^ 0x11f79e71u64,
        clmul(0x11f79e71u64, 0x20c09631u64) == clmul(0xff1cc41u64, 0x65000001u64) ^ 0x19d6cd00u64,
        clmul(0x19d6cd00u64, 0x2306350bu64) == clmul(0x8b3c047u64, 0x65000001u64) ^ 0x1f7ff47u64,
        clmul(0x1f7ff47u64, 0x37fe67f1u64) == clmul(0xeb2039u64, 0x65000001u64) ^ 0xe2344aeu64,
        clmul(0xe2344aeu64, 0x1c291564u64) == clmul(0x3191bd3u64, 0x65000001u64) ^ 0xe2f412bu64,
        clmul(0x1ee0f2a4u64, 0xe2f412bu64 ^ 1) == clmul(0x35f80e9u64, 0x65000001u64) ^ 1,
{
}

/// The characteristic polynomial of the register of 30 bits takes the state 1
/// to 0.
proof fn lemma_annihilated_30()
    ensures
        act(30, 0x65000001u64, 1) == 0,
{
    bit_facts();
    lemma_act_step(30, 0x1u64, 0x3b9a83ddu32, step(30, 0x3b9a83ddu32), 0);
    lemma_step_is_step_bits(30, 0x3dcd41eeu32);
    lemma_act_step(30, 0x3u64, 0x3dcd41eeu32, 0x3b9a83ddu32, 0x3b9a83ddu32);
    lemma_step_is_step_bits(30, 0x1ee6a0f7u32);
    lemma_act_step(30, 0x6u64, 0x1ee6a0f7u32, 0x3dcd41eeu32, 0x657c233u32);
    lemma_step_is_step_bits(30, 0xf73507bu32);
    lemma_act_step(30, 0xcu64, 0xf73507bu32, 0x1ee6a0f7u32, 0x657c233u32);
    lemma_step_is_step_bits(30, 0x7b9a83du32);
    lemma_act_step(30, 0x19u64, 0x7b9a83du32, 0xf73507bu32, 0x657c233u32);
    lemma_step_is_step_bits(30, 0x3dcd41eu32);
    lemma_act_step(30, 0x32u64, 0x3dcd41eu32, 0x7b9a83du32, 0x1ee6a0eu32);
    lemma_step_is_step_bits(30, 0x1ee6a0fu32);
    lemma_act_step(30, 0x65u64, 0x1ee6a0fu32, 0x3dcd41eu32, 0x1ee6a0eu32);
    lemma_step_is_step_bits(30, 0xf73507u32);
    lemma_act_step(30, 0xcau64, 0xf73507u32, 0x1ee6a0fu32, 0x1u32);
    lemma_step_is_step_bits(30, 0x7b9a83u32);
    lemma_act_step(30, 0x194u64, 0x7b9a83u32, 0xf73507u32, 0x1u32);
    lemma_step_is_step_bits(30, 0x3dcd41u32);
    lemma_act_step(30, 0x328u64, 0x3dcd41u32, 0x7b9a83u32, 0x1u32);
    lemma_step_is_step_bits(30, 0x1ee6a0u32);
    lemma_act_step(30, 0x650u64, 0x1ee6a0u32, 0x3dcd41u32, 0x1u32);
    lemma_step_is_step_bits(30, 0xf7350u32);
    lemma_act_step(30, 0xca0u64, 0xf7350u32, 0x1ee6a0u32, 0x1u32);
    lemma_step_is_step_bits(30, 0x7b9a8u32);
    lemma_act_step(30, 0x1940u64, 0x7b9a8u32, 0xf7350u32, 0x1u32);
    lemma_step_is_step_bits(30, 0x3dcd4u32);
    lemma_act_step(30, 0x3280u64, 0x3dcd4u32, 0x7b9a8u32, 0x1u32);
    lemma_step_is_step_bits(30, 0x1ee6au32);
    lemma_act_step(30, 0x6500u64, 0x1ee6au32, 0x3dcd4u32, 0x1u32);
    lemma_step_is_step_bits(30, 0xf735u32);
    lemma_act_step(30, 0xca00u64, 0xf735u32, 0x1ee6au32, 0x1u32);
    lemma_step_is_step_bits(30, 0x7b9au32);
    lemma_act_step(30, 0x19400u64, 0x7b9au32, 0xf735u32, 0x1u32);
    lemma_step_is_step_bits(30, 0x3dcdu32);
    lemma_act_step(30, 0x32800u64, 0x3dcdu32, 0x7b9au32, 0x1u32);
    lemma_step_is_step_bits(30, 0x1ee6u32);
    lemma_act_step(30, 0x65000u64, 0x1ee6u32, 0x3dcdu32, 0x1u32);
    lemma_step_is_step_bits(30, 0xf73u32);
    lemma_act_step(30, 0xca000u64, 0xf73u32, 0x1ee6u32, 0x1u32);
    lemma_step_is_step_bits(30, 0x7b9u32);
    lemma_act_step(30, 0x194000u64, 0x7b9u32, 0xf73u32, 0x1u32);
    lemma_step_is_step_bits(30, 0x3dcu32);
    lemma_act_step(30, 0x328000u64, 0x3dcu32, 0x7b9u32, 0x1u32);
    lemma_step_is_step_bits(30, 0x1eeu32);
    lemma_act_step(30, 0x650000u64, 0x1eeu32, 0x3dcu32, 0x1u32);
    lemma_step_is_step_bits(30, 0xf7u32);
    lemma_act_step(30, 0xca0000u64, 0xf7u32, 0x1eeu32, 0x1u32);
    lemma_step_is_step_bits(30, 0x7bu32);
    lemma_act_step(30, 0x1940000u64, 0x7bu32, 0xf7u32, 0x1u32);
    lemma_step_is_step_bits(30, 0x3du32);
    lemma_act_step(30, 0x3280000u64, 0x3du32, 0x7bu32, 0x1u32);
    lemma_step_is_step_bits(30, 0x1eu32);
    lemma_act_step(30, 0x6500000u64, 0x1eu32, 0x3du32, 0x1u32);
    lemma_step_is_step_bits(30, 0xfu32);
    lemma_act_step(30, 0xca00000u64, 0xfu32, 0x1eu32, 0x1u32);
    lemma_step_is_step_bits(30, 0x7u32);
    lemma_act_step(30, 0x19400000u64, 0x7u32, 0xfu32, 0x1u32);
    lemma_step_is_step_bits(30, 0x3u32);
    lemma_act_step(30, 0x32800000u64, 0x3u32, 0x7u32, 0x1u32);
    lemma_step_is_step_bits(30, 0x1u32);
    lemma_act_step(30, 0x65000001u64, 0x1u32, 0x3u32, 0x1u32);
}

/// The polynomials that stand for 1, 2, 4, ... steps of the register of 30
/// bits.
proof fn lemma_squares_30()
    ensures
        power_is(30, 1, 0x2u64),
        power_is(30, 2, 0x4u64),
        power_is(30, 4, 0x10u64),
        power_is(30, 8, 0x100u64),
        power_is(30, 16, 0x10000u64),
        power_is(30, 32, 0x3b000007u64),
        power_is(30, 64, 0x1a83dd8u64),
        power_is(30, 128, 0x2757198au64),
        power_is(30, 256, 0x36c55979u64),
        power_is(30, 512, 0x197af424u64),
        power_is(30, 1024, 0x5401cbeu64),
        power_is(30, 2048, 0x142c1de5u64),
        power_is(30, 4096, 0x1f9379dcu64),
        power_is(30, 8192, 0xc75bf23u64),
        power_is(30, 16384, 0x20c09631u64),
        power_is(30, 32768, 0x1f33007u64),
        power_is(30, 65536, 0x2306350bu64),
        power_is(30, 131072, 0x29eeffdfu64),
        power_is(30, 262144, 0x365ba899u64),
        power_is(30, 524288, 0x117a487du64),
        power_is(30, 1048576, 0x37fe67f1u64),
        power_is(30, 2097152, 0x1c291564u64),
        power_is(30, 4194304, 0x13d53aeu64),
        power_is(30, 8388608, 0x2e531u64),
        power_is(30, 16777216, 0x1711051eu64),
        power_is(30, 33554432, 0x2fca6b5cu64),
        power_is(30, 67108864, 0x142e8a23u64),
        power_is(30, 134217728, 0x1d8629d7u64),
        power_is(30, 268435456, 0xc6b5e03u64),
        power_is(30, 536870912, 0x2bc19402u64),
        power_is(30, 1073741824, 0x2u64),
{
    bit_facts();
    lemma_annihilated_30();
    lemma_power_one(30);
    lemma_power_mul(30, 0x65000001u64, 1, 0x2u64, 1, 0x2u64, 0x0u64, 0x4u64);
    lemma_power_mul(30, 0x65000001u64, 2, 0x4u64, 2, 0x4u64, 0x0u64, 0x10u64);
    lemma_power_mul(30, 0x65000001u64, 4, 0x10u64, 4, 0x10u64, 0x0u64, 0x100u64);
    lemma_power_mul(30, 0x65000001u64, 8, 0x100u64, 8, 0x100u64, 0x0u64, 0x10000u64);
    lemma_power_mul(30, 0x65000001u64, 16, 0x10000u64, 16, 0x10000u64, 0x7u64, 0x3b000007u64);
    lemma_power_mul(30, 0x65000001u64, 32, 0x3b000007u64, 32, 0x3b000007u64, 0x18a83dcdu64, 0x1a83dd8u64);
    lemma_power_mul(30, 0x65000001u64, 64, 0x1a83dd8u64, 64, 0x1a83dd8u64, 0x648cau64, 0x2757198au64);
    lemma_power_mul(30, 0x65000001u64, 128, 0x2757198au64, 128, 0x2757198au64, 0x1e84193du64, 0x36c55979u64);
    lemma_power_mul(30, 0x65000001u64, 256, 0x36c55979u64, 256, 0x36c55979u64, 0x193be165u64, 0x197af424u64);
    lemma_power_mul(30, 0x65000001u64, 512, 0x197af424u64, 512, 0x197af424u64, 0x65018aeu64, 0x5401cbeu64);
    lemma_power_mul(30, 0x65000001u64, 1024, 0x5401cbeu64, 1024, 0x5401cbeu64, 0x7c58b1u64, 0x142c1de5u64);
    lemma_power_mul(30, 0x65000001u64, 2048, 0x142c1de5u64, 2048, 0x142c1de5u64, 0x7c22dcdu64, 0x1f9379dcu64);
    lemma_power_mul(30, 0x65000001u64, 4096, 0x1f9379dcu64, 4096, 0x1f9379dcu64, 0x634ee73u64, 0xc75bf23u64);
    lemma_power_mul(30, 0x65000001u64, 8192, 0xc75bf23u64, 8192, 0xc75bf23u64, 0x1959234u64, 0x20c09631u64);
    lemma_power_mul(30, 0x65000001u64, 16384, 0x20c09631u64, 16384, 0x20c09631u64, 0x1ee73506u64, 0x1f33007u64);
    lemma_power_mul(30, 0x65000001u64, 32768, 0x1f33007u64, 32768, 0x1f33007u64, 0x6351eu64, 0x2306350bu64);
    lemma_power_mul(30, 0x65000001u64, 65536, 0x2306350bu64, 65536, 0x2306350bu64, 0x1effff9au64, 0x29eeffdfu64);
    lemma_power_mul(30, 0x65000001u64, 131072, 0x29eeffdfu64, 131072, 0x29eeffdfu64, 0x1f0ef9ccu64, 0x365ba899u64);
    lemma_power_mul(30, 0x65000001u64, 262144, 0x365ba899u64, 262144, 0x365ba899u64, 0x193a093cu64, 0x117a487du64);
    lemma_power_mul(30, 0x65000001u64, 524288, 0x117a487du64, 524288, 0x117a487du64, 0x7be72a0u64, 0x37fe67f1u64);
    lemma_power_mul(30, 0x65000001u64, 1048576, 0x37fe67f1u64, 1048576, 0x37fe67f1u64, 0x193c4065u64, 0x1c291564u64);
    lemma_power_mul(30, 0x65000001u64, 2097152, 0x1c291564u64, 2097152, 0x1c291564u64, 0x62c47beu64, 0x13d53aeu64);
    lemma_power_mul(30, 0x65000001u64, 4194304, 0x13d53aeu64, 4194304, 0x13d53aeu64, 0x7a165u64, 0x2e531u64);
    lemma_power_mul(30, 0x65000001u64, 8388608, 0x2e531u64, 8388608, 0x2e531u64, 0x1fu64, 0x1711051eu64);
    lemma_power_mul(30, 0x65000001u64, 16777216, 0x1711051eu64, 16777216, 0x1711051eu64, 0x7db6a08u64, 0x2fca6b5cu64);
    lemma_power_mul(30, 0x65000001u64, 33554432, 0x2fca6b5cu64, 33554432, 0x2fca6b5cu64, 0x1f6b9b73u64, 0x142e8a23u64);
    lemma_power_mul(30, 0x65000001u64, 67108864, 0x142e8a23u64, 67108864, 0x142e8a23u64, 0x7c22dd2u64, 0x1d8629d7u64);
    lemma_power_mul(30, 0x65000001u64, 134217728, 0x1d8629d7u64, 134217728, 0x1d8629d7u64, 0x62a0f16u64, 0xc6b5e03u64);
    lemma_power_mul(30, 0x65000001u64, 268435456, 0xc6b5e03u64, 268435456, 0xc6b5e03u64, 0x1959407u64, 0x2bc19402u64);
    lemma_power_mul(30, 0x65000001u64, 536870912, 0x2bc19402u64, 536870912, 0x2bc19402u64, 0x1f100006u64, 0x2u64);
}

/// 357913941 steps do not take the state 1 of the register of 30 bits to
/// itself.
proof fn lemma_moves_30_3()
    ensures
        !is_period(30, 1, 357913941),
{
    bit_facts();
    lemma_annihilated_30();
    lemma_squares_30();
    lemma_power_mul(30, 0x65000001u64, 1, 0x2u64, 4, 0x10u64, 0x0u64, 0x20u64);
    lemma_power_mul(30, 0x65000001u64, 5, 0x20u64, 16, 0x10000u64, 0x0u64, 0x200000u64);
    lemma_power_mul(30, 0x65000001u64, 21, 0x200000u64, 64, 0x1a83dd8u64, 0x95e5u64, 0x2a0095e5u64);
    lemma_power_mul(30, 0x65000001u64, 85, 0x2a0095e5u64, 256, 0x36c55979u64, 0x1624e229u64, 0x2eb29e54u64);
    lemma_power_mul(30, 0x65000001u64, 341, 0x2eb29e54u64, 1024, 0x5401cbeu64, 0x38ef1f7u64, 0x18eef36fu64);
    lemma_power_mul(30, 0x65000001u64, 1365, 0x18eef36fu64, 4096, 0x1f9379dcu64, 0x797dfddu64, 0x2d5814a9u64);
    lemma_power_mul(30, 0x65000001u64, 5461, 0x2d5814a9u64, 16384, 0x20c09631u64, 0x1a1c0034u64, 0x28622d2du64);
    lemma_power_mul(30, 0x65000001u64, 21845, 0x28622d2du64, 65536, 0x2306350bu64, 0x18234aa3u64, 0x1894bdbcu64);
    lemma_power_mul(30, 0x65000001u64, 87381, 0x1894bdbcu64, 262144, 0x365ba899u64, 0xd68f0afu64, 0x1a2cc533u64);
    lemma_power_mul(30, 0x65000001u64, 349525, 0x1a2cc533u64, 1048576, 0x37fe67f1u64, 0xc646648u64, 0x35dcba6bu64);
    lemma_power_mul(30, 0x65000001u64, 1398101, 0x35dcba6bu64, 4194304, 0x13d53aeu64, 0x8a4b0au64, 0x25d3b0c8u64);
    lemma_power_mul(30, 0x65000001u64, 5592405, 0x25d3b0c8u64, 16777216, 0x1711051eu64, 0xc487ddau64, 0x83cbdaau64);
    lemma_power_mul(30, 0x65000001u64, 22369621, 0x83cbdaau64, 67108864, 0x142e8a23u64, 0x3254ab6u64, 0x2d583d08u64);
    lemma_power_mul(30, 0x65000001u64, 89478485, 0x2d583d08u64, 268435456, 0xc6b5e03u64, 0x5f1580au64, 0x21b5ef12u64);
    lemma_power_moves(30, 0x65000001u64, 357913941, 0x21b5ef12u64, 0x21b5ef12u64, 0x1ee0ee17u64);
}

/// 153391689 steps do not take the state 1 of the register of 30 bits to
/// itself.
proof fn lemma_moves_30_7()
    ensures
        !is_period(30, 1, 153391689),
{
    bit_facts();
    lemma_annihilated_30();
    lemma_squares_30();
    lemma_power_mul(30, 0x65000001u64, 1, 0x2u64, 8, 0x100u64, 0x0u64, 0x200u64);
    lemma_power_mul(30, 0x65000001u64, 9, 0x200u64, 64, 0x1a83dd8u64, 0x9u64, 0x1d7bb009u64);
    lemma_power_mul(30, 0x65000001u64, 73, 0x1d7bb009u64, 512, 0x197af424u64, 0x752bbf2u64, 0x2a72ef6u64);
    lemma_power_mul(30, 0x65000001u64, 585, 0x2a72ef6u64, 4096, 0x1f9379dcu64, 0x858897u64, 0x13a10b1fu64);
    lemma_power_mul(30, 0x65000001u64, 4681, 0x13a10b1fu64, 32768, 0x1f33007u64, 0x5dccd6u64, 0x1d99ed8bu64);
    lemma_power_mul(30, 0x65000001u64, 37449, 0x1d99ed8bu64, 262144, 0x365ba899u64, 0xf802ba5u64, 0x34130f46u64);
    lemma_power_mul(30, 0x65000001u64, 299593, 0x34130f46u64, 2097152, 0x1c291564u64, 0xfecd10du64, 0x3a72eb55u64);
    lemma_power_mul(30, 0x65000001u64, 2396745, 0x3a72eb55u64, 16777216, 0x1711051eu64, 0x8c0dfc0u64, 0x3d144ac6u64);
    lemma_power_mul(30, 0x65000001u64, 19173961, 0x3d144ac6u64, 134217728, 0x1d8629d7u64, 0xd99aca2u64, 0x26571010u64);
    lemma_power_moves(30, 0x65000001u64, 153391689, 0x26571010u64, 0x18d4b185u64, 0x90cf9d4u64);
}

/// 97612893 steps do not take the state 1 of the register of 30 bits to
/// itself.
proof fn lemma_moves_30_11()
    ensures
        !is_period(30, 1, 97612893),
{
    bit_facts();
    lemma_annihilated_30();
    lemma_squares_30();
    lemma_power_mul(30, 0x65000001u64, 1, 0x2u64, 4, 0x10u64, 0x0u64, 0x20u64);
    lemma_power_mul(30, 0x65000001u64, 5, 0x20u64, 8, 0x100u64, 0x0u64, 0x2000u64);
    lemma_power_mul(30, 0x65000001u64, 13, 0x2000u64, 16, 0x10000u64, 0x0u64, 0x20000000u64);
    lemma_power_mul(30, 0x65000001u64, 29, 0x20000000u64, 64, 0x1a83dd8u64, 0x95e5c5u64, 0x3195e5c5u64);
    lemma_power_mul(30, 0x65000001u64, 93, 0x3195e5c5u64, 1024, 0x5401cbeu64, 0x2882560u64, 0x2cee3da6u64);
    lemma_power_mul(30, 0x65000001u64, 1117, 0x2cee3da6u64, 4096, 0x1f9379dcu64, 0x99f485fu64, 0x5798517u64);
    lemma_power_mul(30, 0x65000001u64, 5213, 0x5798517u64, 8192, 0xc75bf23u64, 0xa4c5d8u64, 0x11ce2501u64);
    lemma_power_mul(30, 0x65000001u64, 13405, 0x11ce2501u64, 16384, 0x20c09631u64, 0xfe70c4du64, 0x16c14f7cu64);
    lemma_power_mul(30, 0x65000001u64, 29789, 0x16c14f7cu64, 65536, 0x2306350bu64, 0xdbe4002u64, 0x14952666u64);
    lemma_power_mul(30, 0x65000001u64, 95325, 0x14952666u64, 1048576, 0x37fe67f1u64, 0xba62a90u64, 0x9fd7ed6u64);
    lemma_power_mul(30, 0x65000001u64, 1143901, 0x9fd7ed6u64, 4194304, 0x13d53aeu64, 0x3d6dfcu64, 0x2b8cb678u64);
    lemma_power_mul(30, 0x65000001u64, 5338205, 0x2b8cb678u64, 8388608, 0x2e531u64, 0x1c8e3u64, 0x1f224e1bu64);
    lemma_power_mul(30, 0x65000001u64, 13726813, 0x1f224e1bu64, 16777216, 0x1711051eu64, 0x4bef604u64, 0x2c98b436u64);
    lemma_power_mul(30, 0x65000001u64, 30504029, 0x2c98b436u64, 67108864, 0x142e8a23u64, 0xe38bf1fu64, 0x22913985u64);
    lemma_power_moves(30, 0x65000001u64, 97612893, 0x22913985u64, 0x21371be2u64, 0x1f950c89u64);
}

/// 34636833 steps do not take the state 1 of the register of 30 bits to
/// itself.
proof fn lemma_moves_30_31()
    ensures
        !is_period(30, 1, 34636833),
{
    bit_facts();
    lemma_annihilated_30();
    lemma_squares_30();
    lemma_power_mul(30, 0x65000001u64, 1, 0x2u64, 32, 0x3b000007u64, 0x1u64, 0x1300000fu64);
    lemma_power_mul(30, 0x65000001u64, 33, 0x1300000fu64, 1024, 0x5401cbeu64, 0x1a2c0dbu64, 0x4627211u64);
    lemma_power_mul(30, 0x65000001u64, 1057, 0x4627211u64, 32768, 0x1f33007u64, 0x15d658u64, 0x249ab82fu64);
    lemma_power_mul(30, 0x65000001u64, 33825, 0x249ab82fu64, 1048576, 0x37fe67f1u64, 0x11227ad8u64, 0x175ab4a7u64);
    lemma_power_mul(30, 0x65000001u64, 1082401, 0x175ab4a7u64, 33554432, 0x2fca6b5cu64, 0xfc811e5u64, 0x82f4f1u64);
    lemma_power_moves(30, 0x65000001u64, 34636833, 0x82f4f1u64, 0x2705d4e0u64, 0x711a01u64);
}

/// 7110873 steps do not take the state 1 of the register of 30 bits to
/// itself.
proof fn lemma_moves_30_151()
    ensures
        !is_period(30, 1, 7110873),
{
    bit_facts();
    lemma_annihilated_30();
    lemma_squares_30();
    lemma_power_mul(30, 0x65000001u64, 1, 0x2u64, 8, 0x100u64, 0x0u64, 0x200u64);
    lemma_power_mul(30, 0x65000001u64, 9, 0x200u64, 16, 0x10000u64, 0x0u64, 0x2000000u64);
    lemma_power_mul(30, 0x65000001u64, 25, 0x2000000u64, 64, 0x1a83dd8u64, 0x95e5cu64, 0x1c095e5cu64);
    lemma_power_mul(30, 0x65000001u64, 89, 0x1c095e5cu64, 128, 0x2757198au64, 0xa88c602u64, 0x3762da5au64);
    lemma_power_mul(30, 0x65000001u64, 217, 0x3762da5au64, 32768, 0x1f33007u64, 0xebc454u64, 0x17a723d2u64);
    lemma_power_mul(30, 0x65000001u64, 32985, 0x17a723d2u64, 262144, 0x365ba899u64, 0xa404fe7u64, 0x21f67685u64);
    lemma_power_mul(30, 0x65000001u64, 295129, 0x21f67685u64, 524288, 0x117a487du64, 0xffba772u64, 0x3bd4ce7bu64);
    lemma_power_mul(30, 0x65000001u64, 819417, 0x3bd4ce7bu64, 2097152, 0x1c291564u64, 0xc9dd4f9u64, 0x2cb79bb5u64);
    lemma_power_mul(30, 0x65000001u64, 2916569, 0x2cb79bb5u64, 4194304, 0x13d53aeu64, 0xc5ccb7u64, 0x1f352b81u64);
    lemma_power_moves(30, 0x65000001u64, 7110873, 0x1f352b81u64, 0x1c708f7fu64, 0x6d12681u64);
}

/// 3243933 steps do not take the state 1 of the register of 30 bits to
/// itself.
proof fn lemma_moves_30_331()
    ensures
        !is_period(30, 1, 3243933),
{
    bit_facts();
    lemma_annihilated_30();
    lemma_squares_30();
    lemma_power_mul(30, 0x65000001u64, 1, 0x2u64, 4, 0x10u64, 0x0u64, 0x20u64);
    lemma_power_mul(30, 0x65000001u64, 5, 0x20u64, 8, 0x100u64, 0x0u64, 0x2000u64);
    lemma_power_mul(30, 0x65000001u64, 13, 0x2000u64, 16, 0x10000u64, 0x0u64, 0x20000000u64);
    lemma_power_mul(30, 0x65000001u64, 29, 0x20000000u64, 128, 0x2757198au64, 0x1c13583bu64, 0x2b13583bu64);
    lemma_power_mul(30, 0x65000001u64, 157, 0x2b13583bu64, 256, 0x36c55979u64, 0x16b3cc10u64, 0x29314ce3u64);
    lemma_power_mul(30, 0x65000001u64, 413, 0x29314ce3u64, 512, 0x197af424u64, 0xa5e80fdu64, 0x33d4b311u64);
    lemma_power_mul(30, 0x65000001u64, 925, 0x33d4b311u64, 1024, 0x5401cbeu64, 0x2bf7412u64, 0x2e40414cu64);
    lemma_power_mul(30, 0x65000001u64, 1949, 0x2e40414cu64, 2048, 0x142c1de5u64, 0xedccd4fu64, 0x232f89b3u64);
    lemma_power_mul(30, 0x65000001u64, 3997, 0x232f89b3u64, 4096, 0x1f9379dcu64, 0xa87a362u64, 0xafb5d46u64);
    lemma_power_mul(30, 0x65000001u64, 8093, 0xafb5d46u64, 8192, 0xc75bf23u64, 0x148937bu64, 0x11f79e71u64);
    lemma_power_mul(30, 0x65000001u64, 16285, 0x11f79e71u64, 16384, 0x20c09631u64, 0xff1cc41u64, 0x19d6cd00u64);
    lemma_power_mul(30, 0x65000001u64, 32669, 0x19d6cd00u64, 65536, 0x2306350bu64, 0x8b3c047u64, 0x1f7ff47u64);
    lemma_power_mul(30, 0x65000001u64, 98205, 0x1f7ff47u64, 1048576, 0x37fe67f1u64, 0xeb2039u64, 0xe2344aeu64);
    lemma_power_mul(30, 0x65000001u64, 1146781, 0xe2344aeu64, 2097152, 0x1c291564u64, 0x3191bd3u64, 0xe2f412bu64);
    lemma_power_moves(30, 0x65000001u64, 3243933, 0xe2f412bu64, 0x1ee0f2a4u64, 0x35f80e9u64);
}

/// The state 1 of the register of 30 bits comes back after 1073741823 steps and
/// not before.
pub proof fn lemma_unit_period_30(k: nat)
    requires
        0 < k < 1073741823,
    ensures
        is_period(30, 1, 1073741823),
        !is_period(30, 1, k),
{
    lemma_squares_30();
    lemma_cycle_start(30, 1, 1073741824);
    lemma_moves_30_3();
    lemma_prime_3();
    lemma_moves_30_7();
    lemma_prime_7();
    lemma_moves_30_11();
    lemma_prime_11();
    lemma_moves_30_31();
    lemma_prime_31();
    lemma_moves_30_151();
    lemma_prime_151();
    lemma_moves_30_331();
    lemma_prime_331();
    let f0 = Seq::<nat>::empty();
    assert(product(f0) == 1);
    let f1 = f0.push(3);
    lemma_product_push(f0, 3);
    assert(product(f1) == 3);
    let f2 = f1.push(3);
    lemma_product_push(f1, 3);
    assert(product(f2) == 9);
    let f3 = f2.push(7);
    lemma_product_push(f2, 7);
    assert(product(f3) == 63);
    let f4 = f3.push(11);
    lemma_product_push(f3, 11);
    assert(product(f4) == 693);
    let f5 = f4.push(31);
    lemma_product_push(f4, 31);
    assert(product(f5) == 21483);
    let f6 = f5.push(151);
    lemma_product_push(f5, 151);
    assert(product(f6) == 3243933);
    let f7 = f6.push(331);
    lemma_product_push(f6, 331);
    assert(product(f7) == 1073741823);
    let factors = f7;
    assert forall|j: int| 0 <= j < factors.len() implies !is_period(
        30,
        1,
        1073741823nat / #[trigger] factors[j],
    ) by {
        if j == 0 {
            assert(factors[0] == 3);
            assert(1073741823nat / 3nat == 357913941);
        }
        if j == 1 {
            assert(factors[1] == 3);
            assert(1073741823nat / 3nat == 357913941);
        }
        if j == 2 {
            assert(factors[2] == 7);
            assert(1073741823nat / 7nat == 153391689);
        }
        if j == 3 {
            assert(factors[3] == 11);
            assert(1073741823nat / 11nat == 97612893);
        }
        if j == 4 {
            assert(factors[4] == 31);
            assert(1073741823nat / 31nat == 34636833);
        }
        if j == 5 {
            assert(factors[5] == 151);
            assert(1073741823nat / 151nat == 7110873);
        }
        if j == 6 {
            assert(factors[6] == 331);
            assert(1073741823nat / 331nat == 3243933);
        }
    }
    lemma_mask_facts(30);
    lemma_exact_period(30, 1, 1073741823, factors, k);
}

} // verus!
