//! The register of 26 bits: the state 1 has period `2^26 - 1` exactly.

use crate::divisors::{lemma_product_push, product};
use crate::mls::{lemma_mask_facts, step};
use crate::mls_algebra::{act, clmul, iterate, lemma_step_is_step_bits, step_bits};
use crate::mls_orbit::{
    is_period, lemma_act_step, lemma_cycle_start, lemma_exact_period, lemma_power_moves,
    lemma_power_mul, lemma_power_one, power_is,
};
use crate::primes::{lemma_prime_2731, lemma_prime_3, lemma_prime_8191};
use vstd::prelude::*;

verus! {

/// What bit arithmetic says of this register: the first steps from the state 1,
/// and products of polynomials modulo the characteristic polynomial.
proof fn bit_facts()
    by (bit_vector)
    ensures
        step_bits(26, 0x1u32) == 0x3u32,
        step_bits(26, 0x3u32) == 0x6u32,
        step_bits(26, 0x6u32) == 0xdu32,
        step_bits(26, 0xdu32) == 0x1bu32,
        step_bits(26, 0x1bu32) == 0x36u32,
        step_bits(26, 0x36u32) == 0x6cu32,
        step_bits(26, 0x6cu32) == 0xd9u32,
        step_bits(26, 0xd9u32) == 0x1b3u32,
        step_bits(26, 0x1b3u32) == 0x367u32,
        step_bits(26, 0x367u32) == 0x6cfu32,
        step_bits(26, 0x6cfu32) == 0xd9eu32,
        step_bits(26, 0xd9eu32) == 0x1b3du32,
        step_bits(26, 0x1b3du32) == 0x367au32,
        step_bits(26, 0x367au32) == 0x6cf4u32,
        step_bits(26, 0x6cf4u32) == 0xd9e9u32,
        step_bits(26, 0xd9e9u32) == 0x1b3d2u32,
        step_bits(26, 0x1b3d2u32) == 0x367a5u32,
        step_bits(26, 0x367a5u32) == 0x6cf4au32,
        step_bits(26, 0x6cf4au32) == 0xd9e95u32,
        step_bits(26, 0xd9e95u32) == 0x1b3d2bu32,
        step_bits(26, 0x1b3d2bu32) == 0x367a57u32,
        step_bits(26, 0x367a57u32) == 0x6cf4aeu32,
        step_bits(26, 0x6cf4aeu32) == 0xd9e95cu32,
        step_bits(26, 0xd9e95cu32) == 0x1b3d2b8u32,
        step_bits(26, 0x1b3d2b8u32) == 0x367a571u32,
        step_bits(26, 0x367a571u32) == 0x2cf4ae3u32,
        0x2cf4ae3u32 ^ 0x0u32 == 0x2cf4ae3u32,
        0x367a571u32 ^ 0x2cf4ae3u32 == 0x1a8ef92u32,
        0x1b3d2b8u32 ^ 0x1a8ef92u32 == 0x1b3d2au32,
        0x1b3d2bu32 ^ 0x1b3d2au32 == 0x1u32,
        0x1u32 ^ 0x1u32 == 0x0u32,
        clmul(0x2u64, 0x2u64) == clmul(0x0u64, 0x7100001u64) ^ 0x4u64,
        clmul(0x4u64, 0x4u64) == clmul(0x0u64, 0x7100001u64) ^ 0x10u64,
        clmul(0x10u64, 0x10u64) == clmul(0x0u64, 0x7100001u64) ^ 0x100u64,
        clmul(0x100u64, 0x100u64) == clmul(0x0u64, 0x7100001u64) ^ 0x10000u64,
        clmul(0x10000u64, 0x10000u64) == clmul(0x6cu64, 0x7100001u64) ^ 0x2c0006cu64,
        clmul(0x2c0006cu64, 0x2c0006cu64) == clmul(0x1ae20d9u64, 0x7100001u64) ^ 0x33e3489u64,
        clmul(0x33e3489u64, 0x33e3489u64) == clmul(0x1dee570u64, 0x7100001u64) ^ 0x3cea531u64,
        clmul(0x3cea531u64, 0x3cea531u64) == clmul(0x1c2c82cu64, 0x7100001u64) ^ 0x313cd2du64,
        clmul(0x313cd2du64, 0x313cd2du64) == clmul(0x1df4b20u64, 0x7100001u64) ^ 0x38e4f71u64,
        clmul(0x38e4f71u64, 0x38e4f71u64) == clmul(0x1c4077au64, 0x7100001u64) ^ 0x31127bu64,
        clmul(0x31127bu64, 0x31127bu64) == clmul(0x1df4au64, 0x7100001u64) ^ 0x3a5ca0fu64,
        clmul(0x3a5ca0fu64, 0x3a5ca0fu64) == clmul(0x1c5ae51u64, 0x7100001u64) ^ 0x391ae04u64,
        clmul(0x391ae04u64, 0x391ae04u64) == clmul(0x1c477bfu64, 0x7100001u64) ^ 0x36077afu64,
        clmul(0x36077afu64, 0x36077afu64) == clmul(0x1d85a89u64, 0x7100001u64) ^ 0x35d1edcu64,
        clmul(0x35d1edcu64, 0x35d1edcu64) == clmul(0x1d99836u64, 0x7100001u64) ^ 0x1edc966u64,
        clmul(0x1edc966u64, 0x1edc966u64) == clmul(0x70a89eu64, 0x7100001u64) ^ 0x3d1bc8au64,
        clmul(0x3d1bc8au64, 0x3d1bc8au64) == clmul(0x1c2b8f5u64, 0x7100001u64) ^ 0xc2f8b1u64,
        clmul(0xc2f8b1u64, 0xc2f8b1u64) == clmul(0x1df3ceu64, 0x7100001u64) ^ 0x3bdb6cfu64,
        clmul(0x3bdb6cfu64, 0x3bdb6cfu64) == clmul(0x1c5d99fu64, 0x7100001u64) ^ 0x2189cau64,
        clmul(0x2189cau64, 0x2189cau64) == clmul(0x1b3a5u64, 0x7100001u64) ^ 0x110e3e1u64,
        clmul(0x110e3e1u64, 0x110e3e1u64) == clmul(0x6c9846u64, 0x7100001u64) ^ 0x209cc47u64,
        clmul(0x209cc47u64, 0x209cc47u64) == clmul(0x1b3c9f4u64, 0x7100001u64) ^ 0x2a3d9e1u64,
        clmul(0x2a3d9e1u64, 0x2a3d9e1u64) == clmul(0x1a95d83u64, 0x7100001u64) ^ 0x1d80982u64,
        clmul(0x1d80982u64, 0x1d80982u64) == clmul(0x717106u64, 0x7100001u64) ^ 0x2503102u64,
        clmul(0x2503102u64, 0x2503102u64) == clmul(0x1b57107u64, 0x7100001u64) ^ 0x1c47103u64,
        clmul(0x1c47103u64, 0x1c47103u64) == clmul(0x710007u64, 0x7100001u64) ^ 0x2u64,
        clmul(0x2u64, 0x10u64) == clmul(0x0u64, 0x7100001u64) ^ 0x20u64,
        clmul(0x20u64, 0x10000u64) == clmul(0x0u64, 0x7100001u64) ^ 0x200000u64,
        clmul(0x200000u64, 0x33e3489u64) == clmul(0x17896cu64, 0x7100001u64) ^ 0x3f7896cu64,
        clmul(0x3f7896cu64, 0x313cd2du64) == clmul(0x1beb707u64, 0x7100001u64) ^ 0x3d4c13bu64,
        clmul(0x3d4c13bu64, 0x31127bu64) == clmul(0x1a8628u64, 0x7100001u64) ^ 0x2df70adu64,
        clmul(0x2df70adu64, 0x391ae04u64) == clmul(0x167aa68u64, 0x7100001u64) ^ 0x182cedcu64,
        clmul(0x182cedcu64, 0x35d1edcu64) == clmul(0xfe57c1u64, 0x7100001u64) ^ 0x1bac691u64,
        clmul(0x1bac691u64, 0x3d1bc8au64) == clmul(0xce315fu64, 0x7100001u64) ^ 0x162bc75u64,
        clmul(0x162bc75u64, 0x3bdb6cfu64) == clmul(0xb807e7u64, 0x7100001u64) ^ 0x82b8c4u64,
        clmul(0x82b8c4u64, 0x110e3e1u64) == clmul(0x35e472u64, 0x7100001u64) ^ 0x2f0db36u64,
        clmul(0x2f0db36u64, 0x2a3d9e1u64) == clmul(0x19ef6b9u64, 0x7100001u64) ^ 0x1c37bcfu64,
        clmul(0x1c37bcfu64, 0x2503102u64) == clmul(0x9672ccu64, 0x7100001u64) ^ 0x15e5a52u64,
        clmul(0x15e5a52u64, 0x15e5a52u64 ^ 1) == clmul(0x6a4b57u64, 0x7100001u64) ^ 1,
        clmul(0x2u64, 0x10u64) == clmul(0x0u64, 0x7100001u64) ^ 0x20u64,
        clmul(0x20u64, 0x100u64) == clmul(0x0u64, 0x7100001u64) ^ 0x2000u64,
        clmul(0x2000u64, 0x10000u64) == clmul(0xdu64, 0x7100001u64) ^ 0x3d0000du64,
        clmul(0x3d0000du64, 0x2c0006cu64) == clmul(0x155c42du64, 0x7100001u64) ^ 0x85c691u64,
        clmul(0x85c691u64, 0x33e3489u64) == clmul(0x5c1a3fu64, 0x7100001u64) ^ 0x9bd4a6u64,
        clmul(0x9bd4a6u64, 0x3cea531u64) == clmul(0x418da3u64, 0x7100001u64) ^ 0x30879a5u64,
        clmul(0x30879a5u64, 0x313cd2du64) == clmul(0x1d07657u64, 0x7100001u64) ^ 0x93c9eeu64,
        clmul(0x93c9eeu64, 0x38e4f71u64) == clmul(0x494901u64, 0x7100001u64) ^ 0x120224fu64,
        clmul(0x120224fu64, 0x31127bu64) == clmul(0xa5d38u64, 0x7100001u64) ^ 0x2dab941u64,
        clmul(0x2dab941u64, 0x3a5ca0fu64) == clmul(0x1779b0fu64, 0x7100001u64) ^ 0x3fa35c0u64,
        clmul(0x3fa35c0u64, 0x391ae04u64) == clmul(0x1f059f5u64, 0x7100001u64) ^ 0x2c20ef5u64,
        clmul(0x2c20ef5u64, 0x35d1edcu64) == clmul(0x12a489eu64, 0x7100001u64) ^ 0x151ea72u64,
        clmul(0x14152adu64, 0x151ea72u64 ^ 1) == clmul(0x6d71c6u64, 0x7100001u64) ^ 1,
        clmul(0x2u64, 0x36077afu64) == clmul(0x1u64, 0x7100001u64) ^ 0x1d0ef5fu64,
        clmul(0x2f6e9e7u64, 0x1d0ef5fu64 ^ 1) == clmul(0xb1f1dbu64, 0x7100001u64) ^ 1,
{
}

/// The characteristic polynomial of the register of 26 bits takes the state 1
/// to 0.
proof fn lemma_annihilated_26()
    ensures
        act(26, 0x7100001u64, 1) == 0,
{
    bit_facts();
    lemma_act_step(26, 0x1u64, 0x2cf4ae3u32, step(26, 0x2cf4ae3u32), 0);
    lemma_step_is_step_bits(26, 0x367a571u32);
    lemma_act_step(26, 0x3u64, 0x367a571u32, 0x2cf4ae3u32, 0x2cf4ae3u32);
    lemma_step_is_step_bits(26, 0x1b3d2b8u32);
    lemma_act_step(26, 0x7u64, 0x1b3d2b8u32, 0x367a571u32, 0x1a8ef92u32);
    lemma_step_is_step_bits(26, 0xd9e95cu32);
    lemma_act_step(26, 0xeu64, 0xd9e95cu32, 0x1b3d2b8u32, 0x1b3d2au32);
    lemma_step_is_step_bits(26, 0x6cf4aeu32);
    lemma_act_step(26, 0x1cu64, 0x6cf4aeu32, 0xd9e95cu32, 0x1b3d2au32);
    lemma_step_is_step_bits(26, 0x367a57u32);
    lemma_act_step(26, 0x38u64, 0x367a57u32, 0x6cf4aeu32, 0x1b3d2au32);
    lemma_step_is_step_bits(26, 0x1b3d2bu32);
    lemma_act_step(26, 0x71u64, 0x1b3d2bu32, 0x367a57u32, 0x1b3d2au32);
    lemma_step_is_step_bits(26, 0xd9e95u32);
    lemma_act_step(26, 0xe2u64, 0xd9e95u32, 0x1b3d2bu32, 0x1u32);
    lemma_step_is_step_bits(26, 0x6cf4au32);
    lemma_act_step(26, 0x1c4u64, 0x6cf4au32, 0xd9e95u32, 0x1u32);
    lemma_step_is_step_bits(26, 0x367a5u32);
    lemma_act_step(26, 0x388u64, 0x367a5u32, 0x6cf4au32, 0x1u32);
    lemma_step_is_step_bits(26, 0x1b3d2u32);
    lemma_act_step(26, 0x710u64, 0x1b3d2u32, 0x367a5u32, 0x1u32);
    lemma_step_is_step_bits(26, 0xd9e9u32);
    lemma_act_step(26, 0xe20u64, 0xd9e9u32, 0x1b3d2u32, 0x1u32);
    lemma_step_is_step_bits(26, 0x6cf4u32);
    lemma_act_step(26, 0x1c40u64, 0x6cf4u32, 0xd9e9u32, 0x1u32);
    lemma_step_is_step_bits(26, 0x367au32);
    lemma_act_step(26, 0x3880u64, 0x367au32, 0x6cf4u32, 0x1u32);
    lemma_step_is_step_bits(26, 0x1b3du32);
    lemma_act_step(26, 0x7100u64, 0x1b3du32, 0x367au32, 0x1u32);
    lemma_step_is_step_bits(26, 0xd9eu32);
    lemma_act_step(26, 0xe200u64, 0xd9eu32, 0x1b3du32, 0x1u32);
    lemma_step_is_step_bits(26, 0x6cfu32);
    lemma_act_step(26, 0x1c400u64, 0x6cfu32, 0xd9eu32, 0x1u32);
    lemma_step_is_step_bits(26, 0x367u32);
    lemma_act_step(26, 0x38800u64, 0x367u32, 0x6cfu32, 0x1u32);
    lemma_step_is_step_bits(26, 0x1b3u32);
    lemma_act_step(26, 0x71000u64, 0x1b3u32, 0x367u32, 0x1u32);
    lemma_step_is_step_bits(26, 0xd9u32);
    lemma_act_step(26, 0xe2000u64, 0xd9u32, 0x1b3u32, 0x1u32);
    lemma_step_is_step_bits(26, 0x6cu32);
    lemma_act_step(26, 0x1c4000u64, 0x6cu32, 0xd9u32, 0x1u32);
    lemma_step_is_step_bits(26, 0x36u32);
    lemma_act_step(26, 0x388000u64, 0x36u32, 0x6cu32, 0x1u32);
    lemma_step_is_step_bits(26, 0x1bu32);
    lemma_act_step(26, 0x710000u64, 0x1bu32, 0x36u32, 0x1u32);
    lemma_step_is_step_bits(26, 0xdu32);
    lemma_act_step(26, 0xe20000u64, 0xdu32, 0x1bu32, 0x1u32);
    lemma_step_is_step_bits(26, 0x6u32);
    lemma_act_step(26, 0x1c40000u64, 0x6u32, 0xdu32, 0x1u32);
    lemma_step_is_step_bits(26, 0x3u32);
    lemma_act_step(26, 0x3880000u64, 0x3u32, 0x6u32, 0x1u32);
    lemma_step_is_step_bits(26, 0x1u32);
    lemma_act_step(26, 0x7100001u64, 0x1u32, 0x3u32, 0x1u32);
}

/// The polynomials that stand for 1, 2, 4, ... steps of the register of 26
/// bits.
proof fn lemma_squares_26()
    ensures
        power_is(26, 1, 0x2u64),
        power_is(26, 2, 0x4u64),
        power_is(26, 4, 0x10u64),
        power_is(26, 8, 0x100u64),
        power_is(26, 16, 0x10000u64),
        power_is(26, 32, 0x2c0006cu64),
        power_is(26, 64, 0x33e3489u64),
        power_is(26, 128, 0x3cea531u64),
        power_is(26, 256, 0x313cd2du64),
        power_is(26, 512, 0x38e4f71u64),
        power_is(26, 1024, 0x31127bu64),
        power_is(26, 2048, 0x3a5ca0fu64),
        power_is(26, 4096, 0x391ae04u64),
        power_is(26, 8192, 0x36077afu64),
        power_is(26, 16384, 0x35d1edcu64),
        power_is(26, 32768, 0x1edc966u64),
        power_is(26, 65536, 0x3d1bc8au64),
        power_is(26, 131072, 0xc2f8b1u64),
        power_is(26, 262144, 0x3bdb6cfu64),
        power_is(26, 524288, 0x2189cau64),
        power_is(26, 1048576, 0x110e3e1u64),
        power_is(26, 2097152, 0x209cc47u64),
        power_is(26, 4194304, 0x2a3d9e1u64),
        power_is(26, 8388608, 0x1d80982u64),
        power_is(26, 16777216, 0x2503102u64),
        power_is(26, 33554432, 0x1c47103u64),
        power_is(26, 67108864, 0x2u64),
{
    bit_facts();
    lemma_annihilated_26();
    lemma_power_one(26);
    lemma_power_mul(26, 0x7100001u64, 1, 0x2u64, 1, 0x2u64, 0x0u64, 0x4u64);
    lemma_power_mul(26, 0x7100001u64, 2, 0x4u64, 2, 0x4u64, 0x0u64, 0x10u64);
    lemma_power_mul(26, 0x7100001u64, 4, 0x10u64, 4, 0x10u64, 0x0u64, 0x100u64);
    lemma_power_mul(26, 0x7100001u64, 8, 0x100u64, 8, 0x100u64, 0x0u64, 0x10000u64);
    lemma_power_mul(26, 0x7100001u64, 16, 0x10000u64, 16, 0x10000u64, 0x6cu64, 0x2c0006cu64);
    lemma_power_mul(26, 0x7100001u64, 32, 0x2c0006cu64, 32, 0x2c0006cu64, 0x1ae20d9u64, 0x33e3489u64);
    lemma_power_mul(26, 0x7100001u64, 64, 0x33e3489u64, 64, 0x33e3489u64, 0x1dee570u64, 0x3cea531u64);
    lemma_power_mul(26, 0x7100001u64, 128, 0x3cea531u64, 128, 0x3cea531u64, 0x1c2c82cu64, 0x313cd2du64);
    lemma_power_mul(26, 0x7100001u64, 256, 0x313cd2du64, 256, 0x313cd2du64, 0x1df4b20u64, 0x38e4f71u64);
    lemma_power_mul(26, 0x7100001u64, 512, 0x38e4f71u64, 512, 0x38e4f71u64, 0x1c4077au64, 0x31127bu64);
    lemma_power_mul(26, 0x7100001u64, 1024, 0x31127bu64, 1024, 0x31127bu64, 0x1df4au64, 0x3a5ca0fu64);
    lemma_power_mul(26, 0x7100001u64, 2048, 0x3a5ca0fu64, 2048, 0x3a5ca0fu64, 0x1c5ae51u64, 0x391ae04u64);
    lemma_power_mul(26, 0x7100001u64, 4096, 0x391ae04u64, 4096, 0x391ae04u64, 0x1c477bfu64, 0x36077afu64);
    lemma_power_mul(26, 0x7100001u64, 8192, 0x36077afu64, 8192, 0x36077afu64, 0x1d85a89u64, 0x35d1edcu64);
    lemma_power_mul(26, 0x7100001u64, 16384, 0x35d1edcu64, 16384, 0x35d1edcu64, 0x1d99836u64, 0x1edc966u64);
    lemma_power_mul(26, 0x7100001u64, 32768, 0x1edc966u64, 32768, 0x1edc966u64, 0x70a89eu64, 0x3d1bc8au64);
    lemma_power_mul(26, 0x7100001u64, 65536, 0x3d1bc8au64, 65536, 0x3d1bc8au64, 0x1c2b8f5u64, 0xc2f8b1u64);
    lemma_power_mul(26, 0x7100001u64, 131072, 0xc2f8b1u64, 131072, 0xc2f8b1u64, 0x1df3ceu64, 0x3bdb6cfu64);
    lemma_power_mul(26, 0x7100001u64, 262144, 0x3bdb6cfu64, 262144, 0x3bdb6cfu64, 0x1c5d99fu64, 0x2189cau64);
    lemma_power_mul(26, 0x7100001u64, 524288, 0x2189cau64, 524288, 0x2189cau64, 0x1b3a5u64, 0x110e3e1u64);
    lemma_power_mul(26, 0x7100001u64, 1048576, 0x110e3e1u64, 1048576, 0x110e3e1u64, 0x6c9846u64, 0x209cc47u64);
    lemma_power_mul(26, 0x7100001u64, 2097152, 0x209cc47u64, 2097152, 0x209cc47u64, 0x1b3c9f4u64, 0x2a3d9e1u64);
    lemma_power_mul(26, 0x7100001u64, 4194304, 0x2a3d9e1u64, 4194304, 0x2a3d9e1u64, 0x1a95d83u64, 0x1d80982u64);
    lemma_power_mul(26, 0x7100001u64, 8388608, 0x1d80982u64, 8388608, 0x1d80982u64, 0x717106u64, 0x2503102u64);
    lemma_power_mul(26, 0x7100001u64, 16777216, 0x2503102u64, 16777216, 0x2503102u64, 0x1b57107u64, 0x1c47103u64);
    lemma_power_mul(26, 0x7100001u64, 33554432, 0x1c47103u64, 33554432, 0x1c47103u64, 0x710007u64, 0x2u64);
}

/// 22369621 steps do not take the state 1 of the register of 26 bits to
/// itself.
proof fn lemma_moves_26_3()
    ensures
        !is_period(26, 1, 22369621),
{
    bit_facts();
    lemma_annihilated_26();
    lemma_squares_26();
    lemma_power_mul(26, 0x7100001u64, 1, 0x2u64, 4, 0x10u64, 0x0u64, 0x20u64);
    lemma_power_mul(26, 0x7100001u64, 5, 0x20u64, 16, 0x10000u64, 0x0u64, 0x200000u64);
    lemma_power_mul(26, 0x7100001u64, 21, 0x200000u64, 64, 0x33e3489u64, 0x17896cu64, 0x3f7896cu64);
    lemma_power_mul(26, 0x7100001u64, 85, 0x3f7896cu64, 256, 0x313cd2du64, 0x1beb707u64, 0x3d4c13bu64);
    lemma_power_mul(26, 0x7100001u64, 341, 0x3d4c13bu64, 1024, 0x31127bu64, 0x1a8628u64, 0x2df70adu64);
    lemma_power_mul(26, 0x7100001u64, 1365, 0x2df70adu64, 4096, 0x391ae04u64, 0x167aa68u64, 0x182cedcu64);
    lemma_power_mul(26, 0x7100001u64, 5461, 0x182cedcu64, 16384, 0x35d1edcu64, 0xfe57c1u64, 0x1bac691u64);
    lemma_power_mul(26, 0x7100001u64, 21845, 0x1bac691u64, 65536, 0x3d1bc8au64, 0xce315fu64, 0x162bc75u64);
    lemma_power_mul(26, 0x7100001u64, 87381, 0x162bc75u64, 262144, 0x3bdb6cfu64, 0xb807e7u64, 0x82b8c4u64);
    lemma_power_mul(26, 0x7100001u64, 349525, 0x82b8c4u64, 1048576, 0x110e3e1u64, 0x35e472u64, 0x2f0db36u64);
    lemma_power_mul(26, 0x7100001u64, 1398101, 0x2f0db36u64, 4194304, 0x2a3d9e1u64, 0x19ef6b9u64, 0x1c37bcfu64);
    lemma_power_mul(26, 0x7100001u64, 5592405, 0x1c37bcfu64, 16777216, 0x2503102u64, 0x9672ccu64, 0x15e5a52u64);
    lemma_power_moves(26, 0x7100001u64, 22369621, 0x15e5a52u64, 0x15e5a52u64, 0x6a4b57u64);
}

/// 24573 steps do not take the state 1 of the register of 26 bits to
/// itself.
proof fn lemma_moves_26_2731()
    ensures
        !is_period(26, 1, 24573),
{
    bit_facts();
    lemma_annihilated_26();
    lemma_squares_26();
    lemma_power_mul(26, 0x7100001u64, 1, 0x2u64, 4, 0x10u64, 0x0u64, 0x20u64);
    lemma_power_mul(26, 0x7100001u64, 5, 0x20u64, 8, 0x100u64, 0x0u64, 0x2000u64);
    lemma_power_mul(26, 0x7100001u64, 13, 0x2000u64, 16, 0x10000u64, 0xdu64, 0x3d0000du64);
    lemma_power_mul(26, 0x7100001u64, 29, 0x3d0000du64, 32, 0x2c0006cu64, 0x155c42du64, 0x85c691u64);
    lemma_power_mul(26, 0x7100001u64, 61, 0x85c691u64, 64, 0x33e3489u64, 0x5c1a3fu64, 0x9bd4a6u64);
    lemma_power_mul(26, 0x7100001u64, 125, 0x9bd4a6u64, 128, 0x3cea531u64, 0x418da3u64, 0x30879a5u64);
    lemma_power_mul(26, 0x7100001u64, 253, 0x30879a5u64, 256, 0x313cd2du64, 0x1d07657u64, 0x93c9eeu64);
    lemma_power_mul(26, 0x7100001u64, 509, 0x93c9eeu64, 512, 0x38e4f71u64, 0x494901u64, 0x120224fu64);
    lemma_power_mul(26, 0x7100001u64, 1021, 0x120224fu64, 1024, 0x31127bu64, 0xa5d38u64, 0x2dab941u64);
    lemma_power_mul(26, 0x7100001u64, 2045, 0x2dab941u64, 2048, 0x3a5ca0fu64, 0x1779b0fu64, 0x3fa35c0u64);
    lemma_power_mul(26, 0x7100001u64, 4093, 0x3fa35c0u64, 4096, 0x391ae04u64, 0x1f059f5u64, 0x2c20ef5u64);
    lemma_power_mul(26, 0x7100001u64, 8189, 0x2c20ef5u64, 16384, 0x35d1edcu64, 0x12a489eu64, 0x151ea72u64);
    lemma_power_moves(26, 0x7100001u64, 24573, 0x151ea72u64, 0x14152adu64, 0x6d71c6u64);
}

/// 8193 steps do not take the state 1 of the register of 26 bits to
/// itself.
proof fn lemma_moves_26_8191()
    ensures
        !is_period(26, 1, 8193),
{
    bit_facts();
    lemma_annihilated_26();
    lemma_squares_26();
    lemma_power_mul(26, 0x7100001u64, 1, 0x2u64, 8192, 0x36077afu64, 0x1u64, 0x1d0ef5fu64);
    lemma_power_moves(26, 0x7100001u64, 8193, 0x1d0ef5fu64, 0x2f6e9e7u64, 0xb1f1dbu64);
}

/// The state 1 of the register of 26 bits comes back after 67108863 steps and
/// not before.
pub proof fn lemma_unit_period_26(k: nat)
    requires
        0 < k < 67108863,
    ensures
        is_period(26, 1, 67108863),
        !is_period(26, 1, k),
{
    lemma_squares_26();
    lemma_cycle_start(26, 1, 67108864);
    lemma_moves_26_3();
    lemma_prime_3();
    lemma_moves_26_2731();
    lemma_prime_2731();
    lemma_moves_26_8191();
    lemma_prime_8191();
    let f0 = Seq::<nat>::empty();
    assert(product(f0) == 1);
    let f1 = f0.push(3);
    lemma_product_push(f0, 3);
    assert(product(f1) == 3);
    let f2 = f1.push(2731);
    lemma_product_push(f1, 2731);
    assert(product(f2) == 8193);
    let f3 = f2.push(8191);
    lemma_product_push(f2, 8191);
    assert(product(f3) == 67108863);
    let factors = f3;
    assert forall|j: int| 0 <= j < factors.len() implies !is_period(
        26,
        1,
        67108863nat / #[trigger] factors[j],
    ) by {
        if j == 0 {
            assert(factors[0] == 3);
            assert(67108863nat / 3nat == 22369621);
        }
        if j == 1 {
            assert(factors[1] == 2731);
            assert(67108863nat / 2731nat == 24573);
        }
        if j == 2 {
            assert(factors[2] == 8191);
            assert(67108863nat / 8191nat == 8193);
        }
    }
    lemma_mask_facts(26);
    lemma_exact_period(26, 1, 67108863, factors, k);
}

} // verus!
