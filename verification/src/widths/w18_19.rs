//! The registers of 18 to 19 bits: the state 1 has period `2^n - 1` exactly.

use crate::divisors::{lemma_product_push, product};
use crate::mls::{lemma_mask_facts, step};
use crate::mls_algebra::{act, clmul, iterate, lemma_step_is_step_bits, step_bits};
use crate::mls_orbit::{
    is_period, lemma_act_step, lemma_cycle_start, lemma_exact_period, lemma_power_moves,
    lemma_power_mul, lemma_power_one, power_is,
};
use crate::primes::{
    lemma_prime_19, lemma_prime_3, lemma_prime_524287, lemma_prime_7, lemma_prime_73,
};
use vstd::prelude::*;

verus! {

/// What bit arithmetic says of these registers: the first steps from the state 1,
/// and products of polynomials modulo the characteristic polynomial.
proof fn bit_facts()
    by (bit_vector)
    ensures
        step_bits(18, 0x1u32) == 0x2u32,
        step_bits(18, 0x2u32) == 0x4u32,
        step_bits(18, 0x4u32) == 0x8u32,
        step_bits(18, 0x8u32) == 0x10u32,
        step_bits(18, 0x10u32) == 0x20u32,
        step_bits(18, 0x20u32) == 0x40u32,
        step_bits(18, 0x40u32) == 0x80u32,
        step_bits(18, 0x80u32) == 0x100u32,
        step_bits(18, 0x100u32) == 0x200u32,
        step_bits(18, 0x200u32) == 0x400u32,
        step_bits(18, 0x400u32) == 0x801u32,
        step_bits(18, 0x801u32) == 0x1002u32,
        step_bits(18, 0x1002u32) == 0x2004u32,
        step_bits(18, 0x2004u32) == 0x4008u32,
        step_bits(18, 0x4008u32) == 0x8010u32,
        step_bits(18, 0x8010u32) == 0x10020u32,
        step_bits(18, 0x10020u32) == 0x20040u32,
        step_bits(18, 0x20040u32) == 0x81u32,
        0x81u32 ^ 0x0u32 == 0x81u32,
        0x80u32 ^ 0x81u32 == 0x1u32,
        0x1u32 ^ 0x1u32 == 0x0u32,
        clmul(0x2u64, 0x2u64) == clmul(0x0u64, 0x40081u64) ^ 0x4u64,
        clmul(0x4u64, 0x4u64) == clmul(0x0u64, 0x40081u64) ^ 0x10u64,
        clmul(0x10u64, 0x10u64) == clmul(0x0u64, 0x40081u64) ^ 0x100u64,
        clmul(0x100u64, 0x100u64) == clmul(0x0u64, 0x40081u64) ^ 0x10000u64,
        clmul(0x10000u64, 0x10000u64) == clmul(0x4008u64, 0x40081u64) ^ 0x4408u64,
        clmul(0x4408u64, 0x4408u64) == clmul(0x404u64, 0x40081u64) ^ 0x20644u64,
        clmul(0x20644u64, 0x20644u64) == clmul(0x10025u64, 0x40081u64) ^ 0x102b5u64,
        clmul(0x102b5u64, 0x102b5u64) == clmul(0x4009u64, 0x40081u64) ^ 0x198u64,
        clmul(0x198u64, 0x198u64) == clmul(0x0u64, 0x40081u64) ^ 0x14140u64,
        clmul(0x14140u64, 0x14140u64) == clmul(0x4408u64, 0x40081u64) ^ 0x35008u64,
        clmul(0x35008u64, 0x35008u64) == clmul(0x14468u64, 0x40081u64) ^ 0x37028u64,
        clmul(0x37028u64, 0x37028u64) == clmul(0x14568u64, 0x40081u64) ^ 0x3f528u64,
        clmul(0x3f528u64, 0x3f528u64) == clmul(0x1556eu64, 0x40081u64) ^ 0x2e62eu64,
        clmul(0x2e62eu64, 0x2e62eu64) == clmul(0x11527u64, 0x40081u64) ^ 0x382f3u64,
        clmul(0x382f3u64, 0x382f3u64) == clmul(0x1502bu64, 0x40081u64) ^ 0x110aeu64,
        clmul(0x110aeu64, 0x110aeu64) == clmul(0x4048u64, 0x40081u64) ^ 0x201cu64,
        clmul(0x201cu64, 0x201cu64) == clmul(0x100u64, 0x40081u64) ^ 0x8050u64,
        clmul(0x8050u64, 0x8050u64) == clmul(0x1002u64, 0x40081u64) ^ 0x2u64,
        clmul(0x2u64, 0x10u64) == clmul(0x0u64, 0x40081u64) ^ 0x20u64,
        clmul(0x20u64, 0x10000u64) == clmul(0x8u64, 0x40081u64) ^ 0x408u64,
        clmul(0x408u64, 0x20644u64) == clmul(0x202u64, 0x40081u64) ^ 0x2122u64,
        clmul(0x2122u64, 0x198u64) == clmul(0xcu64, 0x40081u64) ^ 0x2ae3cu64,
        clmul(0x2ae3cu64, 0x35008u64) == clmul(0x1dcf4u64, 0x40081u64) ^ 0x21714u64,
        clmul(0x21714u64, 0x3f528u64) == clmul(0x1f780u64, 0x40081u64) ^ 0x3e9a0u64,
        clmul(0x3e9a0u64, 0x382f3u64) == clmul(0x17204u64, 0x40081u64) ^ 0x21ce4u64,
        clmul(0x21ce4u64, 0x201cu64) == clmul(0x10ebu64, 0x40081u64) ^ 0x1bf9bu64,
        clmul(0x1bf9bu64, 0x1bf9bu64 ^ 1) == clmul(0x515fu64, 0x40081u64) ^ 1,
        clmul(0x2u64, 0x100u64) == clmul(0x0u64, 0x40081u64) ^ 0x200u64,
        clmul(0x200u64, 0x20644u64) == clmul(0x103u64, 0x40081u64) ^ 0x883u64,
        clmul(0x883u64, 0x14140u64) == clmul(0x2aau64, 0x40081u64) ^ 0x346au64,
        clmul(0x346au64, 0x3f528u64) == clmul(0x13acu64, 0x40081u64) ^ 0x149bcu64,
        clmul(0x149bcu64, 0x110aeu64) == clmul(0x5763u64, 0x40081u64) ^ 0x370bu64,
        clmul(0x1948bu64, 0x370bu64 ^ 1) == clmul(0xbcfu64, 0x40081u64) ^ 1,
        clmul(0x2u64, 0x10u64) == clmul(0x0u64, 0x40081u64) ^ 0x20u64,
        clmul(0x20u64, 0x4408u64) == clmul(0x2u64, 0x40081u64) ^ 0x8002u64,
        clmul(0x8002u64, 0x20644u64) == clmul(0x40c1u64, 0x40081u64) ^ 0x22cc9u64,
        clmul(0x22cc9u64, 0x102b5u64) == clmul(0x8a6bu64, 0x40081u64) ^ 0x28336u64,
        clmul(0x28336u64, 0x198u64) == clmul(0xffu64, 0x40081u64) ^ 0x2f8afu64,
        clmul(0x2f8afu64, 0x35008u64) == clmul(0x1e62du64, 0x40081u64) ^ 0x105d5u64,
        clmul(0x105d5u64, 0x3f528u64) == clmul(0xfe10u64, 0x40081u64) ^ 0x2d318u64,
        clmul(0x2d318u64, 0x2e62eu64) == clmul(0x10bcdu64, 0x40081u64) ^ 0x1acddu64,
        clmul(0x2eaafu64, 0x1acddu64 ^ 1) == clmul(0xf7f5u64, 0x40081u64) ^ 1,
        clmul(0x2u64, 0x4u64) == clmul(0x0u64, 0x40081u64) ^ 0x8u64,
        clmul(0x8u64, 0x10u64) == clmul(0x0u64, 0x40081u64) ^ 0x80u64,
        clmul(0x80u64, 0x14140u64) == clmul(0x28u64, 0x40081u64) ^ 0xb428u64,
        clmul(0xb428u64, 0x35008u64) == clmul(0x7e82u64, 0x40081u64) ^ 0x21ec2u64,
        clmul(0x21ec2u64, 0x37028u64) == clmul(0x1b192u64, 0x40081u64) ^ 0xb6c2u64,
        clmul(0x932eu64, 0xb6c2u64 ^ 1) == clmul(0x1473u64, 0x40081u64) ^ 1,
        step_bits(19, 0x1u32) == 0x2u32,
        step_bits(19, 0x2u32) == 0x4u32,
        step_bits(19, 0x4u32) == 0x8u32,
        step_bits(19, 0x8u32) == 0x10u32,
        step_bits(19, 0x10u32) == 0x20u32,
        step_bits(19, 0x20u32) == 0x40u32,
        step_bits(19, 0x40u32) == 0x80u32,
        step_bits(19, 0x80u32) == 0x100u32,
        step_bits(19, 0x100u32) == 0x200u32,
        step_bits(19, 0x200u32) == 0x400u32,
        step_bits(19, 0x400u32) == 0x800u32,
        step_bits(19, 0x800u32) == 0x1000u32,
        step_bits(19, 0x1000u32) == 0x2001u32,
        step_bits(19, 0x2001u32) == 0x4003u32,
        step_bits(19, 0x4003u32) == 0x8006u32,
        step_bits(19, 0x8006u32) == 0x1000cu32,
        step_bits(19, 0x1000cu32) == 0x20018u32,
        step_bits(19, 0x20018u32) == 0x40031u32,
        step_bits(19, 0x40031u32) == 0x63u32,
        0x63u32 ^ 0x0u32 == 0x63u32,
        0x40u32 ^ 0x63u32 == 0x23u32,
        0x20u32 ^ 0x23u32 == 0x3u32,
        0x2u32 ^ 0x3u32 == 0x1u32,
        0x1u32 ^ 0x1u32 == 0x0u32,
        clmul(0x2u64, 0x2u64) == clmul(0x0u64, 0x80063u64) ^ 0x4u64,
        clmul(0x4u64, 0x4u64) == clmul(0x0u64, 0x80063u64) ^ 0x10u64,
        clmul(0x10u64, 0x10u64) == clmul(0x0u64, 0x80063u64) ^ 0x100u64,
        clmul(0x100u64, 0x100u64) == clmul(0x0u64, 0x80063u64) ^ 0x10000u64,
        clmul(0x10000u64, 0x10000u64) == clmul(0x2001u64, 0x80063u64) ^ 0x46063u64,
        clmul(0x46063u64, 0x46063u64) == clmul(0x20298u64, 0x80063u64) ^ 0x6e6adu64,
        clmul(0x6e6adu64, 0x6e6adu64) == clmul(0x28a9cu64, 0x80063u64) ^ 0x2f75u64,
        clmul(0x2f75u64, 0x2f75u64) == clmul(0x8au64, 0x80063u64) ^ 0x5274fu64,
        clmul(0x5274fu64, 0x5274fu64) == clmul(0x2209bu64, 0x80063u64) ^ 0x74458u64,
        clmul(0x74458u64, 0x74458u64) == clmul(0x2a21du64, 0x80063u64) ^ 0x33387u64,
        clmul(0x33387u64, 0x33387u64) == clmul(0xa0a7u64, 0x80063u64) ^ 0x9cdcu64,
        clmul(0x9cdcu64, 0x9cdcu64) == clmul(0x82au64, 0x80063u64) ^ 0x346eeu64,
        clmul(0x346eeu64, 0x346eeu64) == clmul(0xa205u64, 0x80063u64) ^ 0x173bbu64,
        clmul(0x173bbu64, 0x173bbu64) == clmul(0x22a1u64, 0x80063u64) ^ 0x1dec6u64,
        clmul(0x1dec6u64, 0x1dec6u64) == clmul(0x2a2bu64, 0x80063u64) ^ 0x3e1c9u64,
        clmul(0x3e1c9u64, 0x3e1c9u64) == clmul(0xaa87u64, 0x80063u64) ^ 0x75ee8u64,
        clmul(0x75ee8u64, 0x75ee8u64) == clmul(0x2a235u64, 0x80063u64) ^ 0x779ffu64,
        clmul(0x779ffu64, 0x779ffu64) == clmul(0x2a2b7u64, 0x80063u64) ^ 0x249acu64,
        clmul(0x249acu64, 0x249acu64) == clmul(0x820eu64, 0x80063u64) ^ 0x2u64,
        clmul(0x7ffdeu64, 0x2u64 ^ 1) == clmul(0x1u64, 0x80063u64) ^ 1,
{
}

/// The characteristic polynomial of the register of 18 bits takes the state 1
/// to 0.
proof fn lemma_annihilated_18()
    ensures
        act(18, 0x40081u64, 1) == 0,
{
    bit_facts();
    lemma_act_step(18, 0x1u64, 0x81u32, step(18, 0x81u32), 0);
    lemma_step_is_step_bits(18, 0x20040u32);
    lemma_act_step(18, 0x2u64, 0x20040u32, 0x81u32, 0x81u32);
    lemma_step_is_step_bits(18, 0x10020u32);
    lemma_act_step(18, 0x4u64, 0x10020u32, 0x20040u32, 0x81u32);
    lemma_step_is_step_bits(18, 0x8010u32);
    lemma_act_step(18, 0x8u64, 0x8010u32, 0x10020u32, 0x81u32);
    lemma_step_is_step_bits(18, 0x4008u32);
    lemma_act_step(18, 0x10u64, 0x4008u32, 0x8010u32, 0x81u32);
    lemma_step_is_step_bits(18, 0x2004u32);
    lemma_act_step(18, 0x20u64, 0x2004u32, 0x4008u32, 0x81u32);
    lemma_step_is_step_bits(18, 0x1002u32);
    lemma_act_step(18, 0x40u64, 0x1002u32, 0x2004u32, 0x81u32);
    lemma_step_is_step_bits(18, 0x801u32);
    lemma_act_step(18, 0x80u64, 0x801u32, 0x1002u32, 0x81u32);
    lemma_step_is_step_bits(18, 0x400u32);
    lemma_act_step(18, 0x100u64, 0x400u32, 0x801u32, 0x81u32);
    lemma_step_is_step_bits(18, 0x200u32);
    lemma_act_step(18, 0x200u64, 0x200u32, 0x400u32, 0x81u32);
    lemma_step_is_step_bits(18, 0x100u32);
    lemma_act_step(18, 0x400u64, 0x100u32, 0x200u32, 0x81u32);
    lemma_step_is_step_bits(18, 0x80u32);
    lemma_act_step(18, 0x801u64, 0x80u32, 0x100u32, 0x81u32);
    lemma_step_is_step_bits(18, 0x40u32);
    lemma_act_step(18, 0x1002u64, 0x40u32, 0x80u32, 0x1u32);
    lemma_step_is_step_bits(18, 0x20u32);
    lemma_act_step(18, 0x2004u64, 0x20u32, 0x40u32, 0x1u32);
    lemma_step_is_step_bits(18, 0x10u32);
    lemma_act_step(18, 0x4008u64, 0x10u32, 0x20u32, 0x1u32);
    lemma_step_is_step_bits(18, 0x8u32);
    lemma_act_step(18, 0x8010u64, 0x8u32, 0x10u32, 0x1u32);
    lemma_step_is_step_bits(18, 0x4u32);
    lemma_act_step(18, 0x10020u64, 0x4u32, 0x8u32, 0x1u32);
    lemma_step_is_step_bits(18, 0x2u32);
    lemma_act_step(18, 0x20040u64, 0x2u32, 0x4u32, 0x1u32);
    lemma_step_is_step_bits(18, 0x1u32);
    lemma_act_step(18, 0x40081u64, 0x1u32, 0x2u32, 0x1u32);
}

/// The polynomials that stand for 1, 2, 4, ... steps of the register of 18
/// bits.
proof fn lemma_squares_18()
    ensures
        power_is(18, 1, 0x2u64),
        power_is(18, 2, 0x4u64),
        power_is(18, 4, 0x10u64),
        power_is(18, 8, 0x100u64),
        power_is(18, 16, 0x10000u64),
        power_is(18, 32, 0x4408u64),
        power_is(18, 64, 0x20644u64),
        power_is(18, 128, 0x102b5u64),
        power_is(18, 256, 0x198u64),
        power_is(18, 512, 0x14140u64),
        power_is(18, 1024, 0x35008u64),
        power_is(18, 2048, 0x37028u64),
        power_is(18, 4096, 0x3f528u64),
        power_is(18, 8192, 0x2e62eu64),
        power_is(18, 16384, 0x382f3u64),
        power_is(18, 32768, 0x110aeu64),
        power_is(18, 65536, 0x201cu64),
        power_is(18, 131072, 0x8050u64),
        power_is(18, 262144, 0x2u64),
{
    bit_facts();
    lemma_annihilated_18();
    lemma_power_one(18);
    lemma_power_mul(18, 0x40081u64, 1, 0x2u64, 1, 0x2u64, 0x0u64, 0x4u64);
    lemma_power_mul(18, 0x40081u64, 2, 0x4u64, 2, 0x4u64, 0x0u64, 0x10u64);
    lemma_power_mul(18, 0x40081u64, 4, 0x10u64, 4, 0x10u64, 0x0u64, 0x100u64);
    lemma_power_mul(18, 0x40081u64, 8, 0x100u64, 8, 0x100u64, 0x0u64, 0x10000u64);
    lemma_power_mul(18, 0x40081u64, 16, 0x10000u64, 16, 0x10000u64, 0x4008u64, 0x4408u64);
    lemma_power_mul(18, 0x40081u64, 32, 0x4408u64, 32, 0x4408u64, 0x404u64, 0x20644u64);
    lemma_power_mul(18, 0x40081u64, 64, 0x20644u64, 64, 0x20644u64, 0x10025u64, 0x102b5u64);
    lemma_power_mul(18, 0x40081u64, 128, 0x102b5u64, 128, 0x102b5u64, 0x4009u64, 0x198u64);
    lemma_power_mul(18, 0x40081u64, 256, 0x198u64, 256, 0x198u64, 0x0u64, 0x14140u64);
    lemma_power_mul(18, 0x40081u64, 512, 0x14140u64, 512, 0x14140u64, 0x4408u64, 0x35008u64);
    lemma_power_mul(18, 0x40081u64, 1024, 0x35008u64, 1024, 0x35008u64, 0x14468u64, 0x37028u64);
    lemma_power_mul(18, 0x40081u64, 2048, 0x37028u64, 2048, 0x37028u64, 0x14568u64, 0x3f528u64);
    lemma_power_mul(18, 0x40081u64, 4096, 0x3f528u64, 4096, 0x3f528u64, 0x1556eu64, 0x2e62eu64);
    lemma_power_mul(18, 0x40081u64, 8192, 0x2e62eu64, 8192, 0x2e62eu64, 0x11527u64, 0x382f3u64);
    lemma_power_mul(18, 0x40081u64, 16384, 0x382f3u64, 16384, 0x382f3u64, 0x1502bu64, 0x110aeu64);
    lemma_power_mul(18, 0x40081u64, 32768, 0x110aeu64, 32768, 0x110aeu64, 0x4048u64, 0x201cu64);
    lemma_power_mul(18, 0x40081u64, 65536, 0x201cu64, 65536, 0x201cu64, 0x100u64, 0x8050u64);
    lemma_power_mul(18, 0x40081u64, 131072, 0x8050u64, 131072, 0x8050u64, 0x1002u64, 0x2u64);
}

/// 87381 steps do not take the state 1 of the register of 18 bits to
/// itself.
proof fn lemma_moves_18_3()
    ensures
        !is_period(18, 1, 87381),
{
    bit_facts();
    lemma_annihilated_18();
    lemma_squares_18();
    lemma_power_mul(18, 0x40081u64, 1, 0x2u64, 4, 0x10u64, 0x0u64, 0x20u64);
    lemma_power_mul(18, 0x40081u64, 5, 0x20u64, 16, 0x10000u64, 0x8u64, 0x408u64);
    lemma_power_mul(18, 0x40081u64, 21, 0x408u64, 64, 0x20644u64, 0x202u64, 0x2122u64);
    lemma_power_mul(18, 0x40081u64, 85, 0x2122u64, 256, 0x198u64, 0xcu64, 0x2ae3cu64);
    lemma_power_mul(18, 0x40081u64, 341, 0x2ae3cu64, 1024, 0x35008u64, 0x1dcf4u64, 0x21714u64);
    lemma_power_mul(18, 0x40081u64, 1365, 0x21714u64, 4096, 0x3f528u64, 0x1f780u64, 0x3e9a0u64);
    lemma_power_mul(18, 0x40081u64, 5461, 0x3e9a0u64, 16384, 0x382f3u64, 0x17204u64, 0x21ce4u64);
    lemma_power_mul(18, 0x40081u64, 21845, 0x21ce4u64, 65536, 0x201cu64, 0x10ebu64, 0x1bf9bu64);
    lemma_power_moves(18, 0x40081u64, 87381, 0x1bf9bu64, 0x1bf9bu64, 0x515fu64);
}

/// 37449 steps do not take the state 1 of the register of 18 bits to
/// itself.
proof fn lemma_moves_18_7()
    ensures
        !is_period(18, 1, 37449),
{
    bit_facts();
    lemma_annihilated_18();
    lemma_squares_18();
    lemma_power_mul(18, 0x40081u64, 1, 0x2u64, 8, 0x100u64, 0x0u64, 0x200u64);
    lemma_power_mul(18, 0x40081u64, 9, 0x200u64, 64, 0x20644u64, 0x103u64, 0x883u64);
    lemma_power_mul(18, 0x40081u64, 73, 0x883u64, 512, 0x14140u64, 0x2aau64, 0x346au64);
    lemma_power_mul(18, 0x40081u64, 585, 0x346au64, 4096, 0x3f528u64, 0x13acu64, 0x149bcu64);
    lemma_power_mul(18, 0x40081u64, 4681, 0x149bcu64, 32768, 0x110aeu64, 0x5763u64, 0x370bu64);
    lemma_power_moves(18, 0x40081u64, 37449, 0x370bu64, 0x1948bu64, 0xbcfu64);
}

/// 13797 steps do not take the state 1 of the register of 18 bits to
/// itself.
proof fn lemma_moves_18_19()
    ensures
        !is_period(18, 1, 13797),
{
    bit_facts();
    lemma_annihilated_18();
    lemma_squares_18();
    lemma_power_mul(18, 0x40081u64, 1, 0x2u64, 4, 0x10u64, 0x0u64, 0x20u64);
    lemma_power_mul(18, 0x40081u64, 5, 0x20u64, 32, 0x4408u64, 0x2u64, 0x8002u64);
    lemma_power_mul(18, 0x40081u64, 37, 0x8002u64, 64, 0x20644u64, 0x40c1u64, 0x22cc9u64);
    lemma_power_mul(18, 0x40081u64, 101, 0x22cc9u64, 128, 0x102b5u64, 0x8a6bu64, 0x28336u64);
    lemma_power_mul(18, 0x40081u64, 229, 0x28336u64, 256, 0x198u64, 0xffu64, 0x2f8afu64);
    lemma_power_mul(18, 0x40081u64, 485, 0x2f8afu64, 1024, 0x35008u64, 0x1e62du64, 0x105d5u64);
    lemma_power_mul(18, 0x40081u64, 1509, 0x105d5u64, 4096, 0x3f528u64, 0xfe10u64, 0x2d318u64);
    lemma_power_mul(18, 0x40081u64, 5605, 0x2d318u64, 8192, 0x2e62eu64, 0x10bcdu64, 0x1acddu64);
    lemma_power_moves(18, 0x40081u64, 13797, 0x1acddu64, 0x2eaafu64, 0xf7f5u64);
}

/// 3591 steps do not take the state 1 of the register of 18 bits to
/// itself.
proof fn lemma_moves_18_73()
    ensures
        !is_period(18, 1, 3591),
{
    bit_facts();
    lemma_annihilated_18();
    lemma_squares_18();
    lemma_power_mul(18, 0x40081u64, 1, 0x2u64, 2, 0x4u64, 0x0u64, 0x8u64);
    lemma_power_mul(18, 0x40081u64, 3, 0x8u64, 4, 0x10u64, 0x0u64, 0x80u64);
    lemma_power_mul(18, 0x40081u64, 7, 0x80u64, 512, 0x14140u64, 0x28u64, 0xb428u64);
    lemma_power_mul(18, 0x40081u64, 519, 0xb428u64, 1024, 0x35008u64, 0x7e82u64, 0x21ec2u64);
    lemma_power_mul(18, 0x40081u64, 1543, 0x21ec2u64, 2048, 0x37028u64, 0x1b192u64, 0xb6c2u64);
    lemma_power_moves(18, 0x40081u64, 3591, 0xb6c2u64, 0x932eu64, 0x1473u64);
}

/// The state 1 of the register of 18 bits comes back after 262143 steps and
/// not before.
pub proof fn lemma_unit_period_18(k: nat)
    requires
        0 < k < 262143,
    ensures
        is_period(18, 1, 262143),
        !is_period(18, 1, k),
{
    lemma_squares_18();
    lemma_cycle_start(18, 1, 262144);
    lemma_moves_18_3();
    lemma_prime_3();
    lemma_moves_18_7();
    lemma_prime_7();
    lemma_moves_18_19();
    lemma_prime_19();
    lemma_moves_18_73();
    lemma_prime_73();
    let f0 = Seq::<nat>::empty();
    assert(product(f0) == 1);
    let f1 = f0.push(3);
    lemma_product_push(f0, 3);
    assert(product(f1) == 3);
    let f2 = f1.push(3);
    lemma_product_push(f1, 3);
    assert(product(f2) == 9);
    let f3 = f2.push(3);
    lemma_product_push(f2, 3);
    assert(product(f3) == 27);
    let f4 = f3.push(7);
    lemma_product_push(f3, 7);
    assert(product(f4) == 189);
    let f5 = f4.push(19);
    lemma_product_push(f4, 19);
    assert(product(f5) == 3591);
    let f6 = f5.push(73);
    lemma_product_push(f5, 73);
    assert(product(f6) == 262143);
    let factors = f6;
    assert forall|j: int| 0 <= j < factors.len() implies !is_period(
        18,
        1,
        262143nat / #[trigger] factors[j],
    ) by {
        if j == 0 {
            assert(factors[0] == 3);
            assert(262143nat / 3nat == 87381);
        }
        if j == 1 {
            assert(factors[1] == 3);
            assert(262143nat / 3nat == 87381);
        }
        if j == 2 {
            assert(factors[2] == 3);
            assert(262143nat / 3nat == 87381);
        }
        if j == 3 {
            assert(factors[3] == 7);
            assert(262143nat / 7nat == 37449);
        }
        if j == 4 {
            assert(factors[4] == 19);
            assert(262143nat / 19nat == 13797);
        }
        if j == 5 {
            assert(factors[5] == 73);
            assert(262143nat / 73nat == 3591);
        }
    }
    lemma_mask_facts(18);
    lemma_exact_period(18, 1, 262143, factors, k);
}

/// The characteristic polynomial of the register of 19 bits takes the state 1
/// to 0.
proof fn lemma_annihilated_19()
    ensures
        act(19, 0x80063u64, 1) == 0,
{
    bit_facts();
    lemma_act_step(19, 0x1u64, 0x63u32, step(19, 0x63u32), 0);
    lemma_step_is_step_bits(19, 0x40031u32);
    lemma_act_step(19, 0x2u64, 0x40031u32, 0x63u32, 0x63u32);
    lemma_step_is_step_bits(19, 0x20018u32);
    lemma_act_step(19, 0x4u64, 0x20018u32, 0x40031u32, 0x63u32);
    lemma_step_is_step_bits(19, 0x1000cu32);
    lemma_act_step(19, 0x8u64, 0x1000cu32, 0x20018u32, 0x63u32);
    lemma_step_is_step_bits(19, 0x8006u32);
    lemma_act_step(19, 0x10u64, 0x8006u32, 0x1000cu32, 0x63u32);
    lemma_step_is_step_bits(19, 0x4003u32);
    lemma_act_step(19, 0x20u64, 0x4003u32, 0x8006u32, 0x63u32);
    lemma_step_is_step_bits(19, 0x2001u32);
    lemma_act_step(19, 0x40u64, 0x2001u32, 0x4003u32, 0x63u32);
    lemma_step_is_step_bits(19, 0x1000u32);
    lemma_act_step(19, 0x80u64, 0x1000u32, 0x2001u32, 0x63u32);
    lemma_step_is_step_bits(19, 0x800u32);
    lemma_act_step(19, 0x100u64, 0x800u32, 0x1000u32, 0x63u32);
    lemma_step_is_step_bits(19, 0x400u32);
    lemma_act_step(19, 0x200u64, 0x400u32, 0x800u32, 0x63u32);
    lemma_step_is_step_bits(19, 0x200u32);
    lemma_act_step(19, 0x400u64, 0x200u32, 0x400u32, 0x63u32);
    lemma_step_is_step_bits(19, 0x100u32);
    lemma_act_step(19, 0x800u64, 0x100u32, 0x200u32, 0x63u32);
    lemma_step_is_step_bits(19, 0x80u32);
    lemma_act_step(19, 0x1000u64, 0x80u32, 0x100u32, 0x63u32);
    lemma_step_is_step_bits(19, 0x40u32);
    lemma_act_step(19, 0x2001u64, 0x40u32, 0x80u32, 0x63u32);
    lemma_step_is_step_bits(19, 0x20u32);
    lemma_act_step(19, 0x4003u64, 0x20u32, 0x40u32, 0x23u32);
    lemma_step_is_step_bits(19, 0x10u32);
    lemma_act_step(19, 0x8006u64, 0x10u32, 0x20u32, 0x3u32);
    lemma_step_is_step_bits(19, 0x8u32);
    lemma_act_step(19, 0x1000cu64, 0x8u32, 0x10u32, 0x3u32);
    lemma_step_is_step_bits(19, 0x4u32);
    lemma_act_step(19, 0x20018u64, 0x4u32, 0x8u32, 0x3u32);
    lemma_step_is_step_bits(19, 0x2u32);
    lemma_act_step(19, 0x40031u64, 0x2u32, 0x4u32, 0x3u32);
    lemma_step_is_step_bits(19, 0x1u32);
    lemma_act_step(19, 0x80063u64, 0x1u32, 0x2u32, 0x1u32);
}

/// The polynomials that stand for 1, 2, 4, ... steps of the register of 19
/// bits.
proof fn lemma_squares_19()
    ensures
        power_is(19, 1, 0x2u64),
        power_is(19, 2, 0x4u64),
        power_is(19, 4, 0x10u64),
        power_is(19, 8, 0x100u64),
        power_is(19, 16, 0x10000u64),
        power_is(19, 32, 0x46063u64),
        power_is(19, 64, 0x6e6adu64),
        power_is(19, 128, 0x2f75u64),
        power_is(19, 256, 0x5274fu64),
        power_is(19, 512, 0x74458u64),
        power_is(19, 1024, 0x33387u64),
        power_is(19, 2048, 0x9cdcu64),
        power_is(19, 4096, 0x346eeu64),
        power_is(19, 8192, 0x173bbu64),
        power_is(19, 16384, 0x1dec6u64),
        power_is(19, 32768, 0x3e1c9u64),
        power_is(19, 65536, 0x75ee8u64),
        power_is(19, 131072, 0x779ffu64),
        power_is(19, 262144, 0x249acu64),
        power_is(19, 524288, 0x2u64),
{
    bit_facts();
    lemma_annihilated_19();
    lemma_power_one(19);
    lemma_power_mul(19, 0x80063u64, 1, 0x2u64, 1, 0x2u64, 0x0u64, 0x4u64);
    lemma_power_mul(19, 0x80063u64, 2, 0x4u64, 2, 0x4u64, 0x0u64, 0x10u64);
    lemma_power_mul(19, 0x80063u64, 4, 0x10u64, 4, 0x10u64, 0x0u64, 0x100u64);
    lemma_power_mul(19, 0x80063u64, 8, 0x100u64, 8, 0x100u64, 0x0u64, 0x10000u64);
    lemma_power_mul(19, 0x80063u64, 16, 0x10000u64, 16, 0x10000u64, 0x2001u64, 0x46063u64);
    lemma_power_mul(19, 0x80063u64, 32, 0x46063u64, 32, 0x46063u64, 0x20298u64, 0x6e6adu64);
    lemma_power_mul(19, 0x80063u64, 64, 0x6e6adu64, 64, 0x6e6adu64, 0x28a9cu64, 0x2f75u64);
    lemma_power_mul(19, 0x80063u64, 128, 0x2f75u64, 128, 0x2f75u64, 0x8au64, 0x5274fu64);
    lemma_power_mul(19, 0x80063u64, 256, 0x5274fu64, 256, 0x5274fu64, 0x2209bu64, 0x74458u64);
    lemma_power_mul(19, 0x80063u64, 512, 0x74458u64, 512, 0x74458u64, 0x2a21du64, 0x33387u64);
    lemma_power_mul(19, 0x80063u64, 1024, 0x33387u64, 1024, 0x33387u64, 0xa0a7u64, 0x9cdcu64);
    lemma_power_mul(19, 0x80063u64, 2048, 0x9cdcu64, 2048, 0x9cdcu64, 0x82au64, 0x346eeu64);
    lemma_power_mul(19, 0x80063u64, 4096, 0x346eeu64, 4096, 0x346eeu64, 0xa205u64, 0x173bbu64);
    lemma_power_mul(19, 0x80063u64, 8192, 0x173bbu64, 8192, 0x173bbu64, 0x22a1u64, 0x1dec6u64);
    lemma_power_mul(19, 0x80063u64, 16384, 0x1dec6u64, 16384, 0x1dec6u64, 0x2a2bu64, 0x3e1c9u64);
    lemma_power_mul(19, 0x80063u64, 32768, 0x3e1c9u64, 32768, 0x3e1c9u64, 0xaa87u64, 0x75ee8u64);
    lemma_power_mul(19, 0x80063u64, 65536, 0x75ee8u64, 65536, 0x75ee8u64, 0x2a235u64, 0x779ffu64);
    lemma_power_mul(19, 0x80063u64, 131072, 0x779ffu64, 131072, 0x779ffu64, 0x2a2b7u64, 0x249acu64);
    lemma_power_mul(19, 0x80063u64, 262144, 0x249acu64, 262144, 0x249acu64, 0x820eu64, 0x2u64);
}

/// One step does not take the state 1 of the register of 19 bits to itself.
proof fn lemma_moves_19_524287()
    ensures
        !is_period(19, 1, 1),
{
    bit_facts();
    lemma_annihilated_19();
    lemma_squares_19();
    lemma_power_moves(19, 0x80063u64, 1, 0x2u64, 0x7ffdeu64, 0x1u64);
}

/// The state 1 of the register of 19 bits comes back after 524287 steps and
/// not before.
pub proof fn lemma_unit_period_19(k: nat)
    requires
        0 < k < 524287,
    ensures
        is_period(19, 1, 524287),
        !is_period(19, 1, k),
{
    lemma_squares_19();
    lemma_cycle_start(19, 1, 524288);
    lemma_moves_19_524287();
    lemma_prime_524287();
    let f0 = Seq::<nat>::empty();
    assert(product(f0) == 1);
    let f1 = f0.push(524287);
    lemma_product_push(f0, 524287);
    assert(product(f1) == 524287);
    let factors = f1;
    assert forall|j: int| 0 <= j < factors.len() implies !is_period(
        19,
        1,
        524287nat / #[trigger] factors[j],
    ) by {
        if j == 0 {
            assert(factors[0] == 524287);
            assert(524287nat / 524287nat == 1);
        }
    }
    lemma_mask_facts(19);
    lemma_exact_period(19, 1, 524287, factors, k);
}

} // verus!
