//! The registers of 9 to 12 bits: the state 1 has period `2^n - 1` exactly.

use crate::divisors::{lemma_product_push, product};
use crate::mls::{lemma_mask_facts, step};
use crate::mls_algebra::{act, clmul, iterate, lemma_step_is_step_bits, step_bits};
use crate::mls_orbit::{
    is_period, lemma_act_step, lemma_cycle_start, lemma_exact_period, lemma_power_moves,
    lemma_power_mul, lemma_power_one, power_is,
};
use crate::primes::{
    lemma_prime_11, lemma_prime_13, lemma_prime_23, lemma_prime_3, lemma_prime_31, lemma_prime_5,
    lemma_prime_7, lemma_prime_73, lemma_prime_89,
};
use vstd::prelude::*;

verus! {

/// What bit arithmetic says of these registers: the first steps from the state 1,
/// and products of polynomials modulo the characteristic polynomial.
proof fn bit_facts()
    by (bit_vector)
    ensures
        step_bits(9, 0x1u32) == 0x2u32,
        step_bits(9, 0x2u32) == 0x4u32,
        step_bits(9, 0x4u32) == 0x8u32,
        step_bits(9, 0x8u32) == 0x10u32,
        step_bits(9, 0x10u32) == 0x21u32,
        step_bits(9, 0x21u32) == 0x42u32,
        step_bits(9, 0x42u32) == 0x84u32,
        step_bits(9, 0x84u32) == 0x108u32,
        step_bits(9, 0x108u32) == 0x11u32,
        0x11u32 ^ 0x0u32 == 0x11u32,
        0x10u32 ^ 0x11u32 == 0x1u32,
        0x1u32 ^ 0x1u32 == 0x0u32,
        clmul(0x2u64, 0x2u64) == clmul(0x0u64, 0x211u64) ^ 0x4u64,
        clmul(0x4u64, 0x4u64) == clmul(0x0u64, 0x211u64) ^ 0x10u64,
        clmul(0x10u64, 0x10u64) == clmul(0x0u64, 0x211u64) ^ 0x100u64,
        clmul(0x100u64, 0x100u64) == clmul(0x84u64, 0x211u64) ^ 0xc4u64,
        clmul(0xc4u64, 0xc4u64) == clmul(0x29u64, 0x211u64) ^ 0xa9u64,
        clmul(0xa9u64, 0xa9u64) == clmul(0x23u64, 0x211u64) ^ 0x52u64,
        clmul(0x52u64, 0x52u64) == clmul(0x8u64, 0x211u64) ^ 0x18cu64,
        clmul(0x18cu64, 0x18cu64) == clmul(0xa5u64, 0x211u64) ^ 0xa5u64,
        clmul(0xa5u64, 0xa5u64) == clmul(0x23u64, 0x211u64) ^ 0x2u64,
        clmul(0x2u64, 0x100u64) == clmul(0x1u64, 0x211u64) ^ 0x11u64,
        clmul(0x11u64, 0x52u64) == clmul(0x2u64, 0x211u64) ^ 0x150u64,
        clmul(0x1cu64, 0x150u64 ^ 1) == clmul(0xdu64, 0x211u64) ^ 1,
        clmul(0x2u64, 0x4u64) == clmul(0x0u64, 0x211u64) ^ 0x8u64,
        clmul(0x8u64, 0x10u64) == clmul(0x0u64, 0x211u64) ^ 0x80u64,
        clmul(0x1e8u64, 0x80u64 ^ 1) == clmul(0x79u64, 0x211u64) ^ 1,
        step_bits(10, 0x1u32) == 0x2u32,
        step_bits(10, 0x2u32) == 0x4u32,
        step_bits(10, 0x4u32) == 0x8u32,
        step_bits(10, 0x8u32) == 0x10u32,
        step_bits(10, 0x10u32) == 0x20u32,
        step_bits(10, 0x20u32) == 0x40u32,
        step_bits(10, 0x40u32) == 0x81u32,
        step_bits(10, 0x81u32) == 0x102u32,
        step_bits(10, 0x102u32) == 0x204u32,
        step_bits(10, 0x204u32) == 0x9u32,
        0x9u32 ^ 0x0u32 == 0x9u32,
        0x8u32 ^ 0x9u32 == 0x1u32,
        0x1u32 ^ 0x1u32 == 0x0u32,
        clmul(0x2u64, 0x2u64) == clmul(0x0u64, 0x409u64) ^ 0x4u64,
        clmul(0x4u64, 0x4u64) == clmul(0x0u64, 0x409u64) ^ 0x10u64,
        clmul(0x10u64, 0x10u64) == clmul(0x0u64, 0x409u64) ^ 0x100u64,
        clmul(0x100u64, 0x100u64) == clmul(0x40u64, 0x409u64) ^ 0x240u64,
        clmul(0x240u64, 0x240u64) == clmul(0x106u64, 0x409u64) ^ 0x136u64,
        clmul(0x136u64, 0x136u64) == clmul(0x41u64, 0x409u64) ^ 0x35du64,
        clmul(0x35du64, 0x35du64) == clmul(0x146u64, 0x409u64) ^ 0x227u64,
        clmul(0x227u64, 0x227u64) == clmul(0x103u64, 0x409u64) ^ 0x10eu64,
        clmul(0x10eu64, 0x10eu64) == clmul(0x40u64, 0x409u64) ^ 0x214u64,
        clmul(0x214u64, 0x214u64) == clmul(0x102u64, 0x409u64) ^ 0x2u64,
        clmul(0x2u64, 0x10u64) == clmul(0x0u64, 0x409u64) ^ 0x20u64,
        clmul(0x20u64, 0x240u64) == clmul(0x12u64, 0x409u64) ^ 0x82u64,
        clmul(0x82u64, 0x35du64) == clmul(0x6au64, 0x409u64) ^ 0x300u64,
        clmul(0x300u64, 0x10eu64) == clmul(0xc5u64, 0x409u64) ^ 0xedu64,
        clmul(0xedu64, 0xedu64 ^ 1) == clmul(0x15u64, 0x409u64) ^ 1,
        clmul(0x2u64, 0x10u64) == clmul(0x0u64, 0x409u64) ^ 0x20u64,
        clmul(0x20u64, 0x100u64) == clmul(0x8u64, 0x409u64) ^ 0x48u64,
        clmul(0x48u64, 0x240u64) == clmul(0x20u64, 0x409u64) ^ 0x320u64,
        clmul(0x320u64, 0x35du64) == clmul(0x161u64, 0x409u64) ^ 0x2c9u64,
        clmul(0x28eu64, 0x2c9u64 ^ 1) == clmul(0x139u64, 0x409u64) ^ 1,
        clmul(0x2u64, 0x136u64) == clmul(0x0u64, 0x409u64) ^ 0x26cu64,
        clmul(0x357u64, 0x26cu64 ^ 1) == clmul(0x182u64, 0x409u64) ^ 1,
        step_bits(11, 0x1u32) == 0x2u32,
        step_bits(11, 0x2u32) == 0x4u32,
        step_bits(11, 0x4u32) == 0x8u32,
        step_bits(11, 0x8u32) == 0x10u32,
        step_bits(11, 0x10u32) == 0x20u32,
        step_bits(11, 0x20u32) == 0x40u32,
        step_bits(11, 0x40u32) == 0x80u32,
        step_bits(11, 0x80u32) == 0x100u32,
        step_bits(11, 0x100u32) == 0x201u32,
        step_bits(11, 0x201u32) == 0x402u32,
        step_bits(11, 0x402u32) == 0x5u32,
        0x5u32 ^ 0x0u32 == 0x5u32,
        0x4u32 ^ 0x5u32 == 0x1u32,
        0x1u32 ^ 0x1u32 == 0x0u32,
        clmul(0x2u64, 0x2u64) == clmul(0x0u64, 0x805u64) ^ 0x4u64,
        clmul(0x4u64, 0x4u64) == clmul(0x0u64, 0x805u64) ^ 0x10u64,
        clmul(0x10u64, 0x10u64) == clmul(0x0u64, 0x805u64) ^ 0x100u64,
        clmul(0x100u64, 0x100u64) == clmul(0x20u64, 0x805u64) ^ 0xa0u64,
        clmul(0xa0u64, 0xa0u64) == clmul(0x8u64, 0x805u64) ^ 0x428u64,
        clmul(0x428u64, 0x428u64) == clmul(0x201u64, 0x805u64) ^ 0x645u64,
        clmul(0x645u64, 0x645u64) == clmul(0x283u64, 0x805u64) ^ 0x9eu64,
        clmul(0x9eu64, 0x9eu64) == clmul(0x8u64, 0x805u64) ^ 0x17cu64,
        clmul(0x17cu64, 0x17cu64) == clmul(0x22u64, 0x805u64) ^ 0x5fau64,
        clmul(0x5fau64, 0x5fau64) == clmul(0x22bu64, 0x805u64) ^ 0x7c3u64,
        clmul(0x7c3u64, 0x7c3u64) == clmul(0x2abu64, 0x805u64) ^ 0x2u64,
        clmul(0x2u64, 0x100u64) == clmul(0x0u64, 0x805u64) ^ 0x200u64,
        clmul(0x200u64, 0xa0u64) == clmul(0x28u64, 0x805u64) ^ 0x88u64,
        clmul(0x88u64, 0x645u64) == clmul(0x62u64, 0x805u64) ^ 0x142u64,
        clmul(0x20cu64, 0x142u64 ^ 1) == clmul(0x51u64, 0x805u64) ^ 1,
        clmul(0x2u64, 0x4u64) == clmul(0x0u64, 0x805u64) ^ 0x8u64,
        clmul(0x8u64, 0x10u64) == clmul(0x0u64, 0x805u64) ^ 0x80u64,
        clmul(0x80u64, 0xa0u64) == clmul(0xau64, 0x805u64) ^ 0x22u64,
        clmul(0x195u64, 0x22u64 ^ 1) == clmul(0x6u64, 0x805u64) ^ 1,
        step_bits(12, 0x1u32) == 0x2u32,
        step_bits(12, 0x2u32) == 0x4u32,
        step_bits(12, 0x4u32) == 0x8u32,
        step_bits(12, 0x8u32) == 0x10u32,
        step_bits(12, 0x10u32) == 0x20u32,
        step_bits(12, 0x20u32) == 0x41u32,
        step_bits(12, 0x41u32) == 0x82u32,
        step_bits(12, 0x82u32) == 0x105u32,
        step_bits(12, 0x105u32) == 0x20au32,
        step_bits(12, 0x20au32) == 0x414u32,
        step_bits(12, 0x414u32) == 0x829u32,
        step_bits(12, 0x829u32) == 0x52u32,
        0x52u32 ^ 0x0u32 == 0x52u32,
        0x41u32 ^ 0x52u32 == 0x13u32,
        0x10u32 ^ 0x13u32 == 0x3u32,
        0x2u32 ^ 0x3u32 == 0x1u32,
        0x1u32 ^ 0x1u32 == 0x0u32,
        clmul(0x2u64, 0x2u64) == clmul(0x0u64, 0x1053u64) ^ 0x4u64,
        clmul(0x4u64, 0x4u64) == clmul(0x0u64, 0x1053u64) ^ 0x10u64,
        clmul(0x10u64, 0x10u64) == clmul(0x0u64, 0x1053u64) ^ 0x100u64,
        clmul(0x100u64, 0x100u64) == clmul(0x10u64, 0x1053u64) ^ 0x530u64,
        clmul(0x530u64, 0x530u64) == clmul(0x115u64, 0x1053u64) ^ 0x22fu64,
        clmul(0x22fu64, 0x22fu64) == clmul(0x41u64, 0x1053u64) ^ 0xc6u64,
        clmul(0xc6u64, 0xc6u64) == clmul(0x5u64, 0x1053u64) ^ 0x10bu64,
        clmul(0x10bu64, 0x10bu64) == clmul(0x10u64, 0x1053u64) ^ 0x575u64,
        clmul(0x575u64, 0x575u64) == clmul(0x114u64, 0x1053u64) ^ 0x26du64,
        clmul(0x26du64, 0x26du64) == clmul(0x40u64, 0x1053u64) ^ 0x91u64,
        clmul(0x91u64, 0x91u64) == clmul(0x4u64, 0x1053u64) ^ 0x4du64,
        clmul(0x4du64, 0x4du64) == clmul(0x1u64, 0x1053u64) ^ 0x2u64,
        clmul(0x2u64, 0x10u64) == clmul(0x0u64, 0x1053u64) ^ 0x20u64,
        clmul(0x20u64, 0x530u64) == clmul(0xau64, 0x1053u64) ^ 0x43eu64,
        clmul(0x43eu64, 0xc6u64) == clmul(0x30u64, 0x1053u64) ^ 0x754u64,
        clmul(0x754u64, 0x575u64) == clmul(0x1b2u64, 0x1053u64) ^ 0x1b2u64,
        clmul(0x1b2u64, 0x91u64) == clmul(0xcu64, 0x1053u64) ^ 0x46u64,
        clmul(0x46u64, 0x46u64 ^ 1) == clmul(0x1u64, 0x1053u64) ^ 1,
        clmul(0x2u64, 0x4u64) == clmul(0x0u64, 0x1053u64) ^ 0x8u64,
        clmul(0x8u64, 0x530u64) == clmul(0x2u64, 0x1053u64) ^ 0x926u64,
        clmul(0x926u64, 0x22fu64) == clmul(0x134u64, 0x1053u64) ^ 0x31eu64,
        clmul(0x31eu64, 0x575u64) == clmul(0xfcu64, 0x1053u64) ^ 0xd02u64,
        clmul(0xd02u64, 0x26du64) == clmul(0x18cu64, 0x1053u64) ^ 0xc8eu64,
        clmul(0x7b3u64, 0xc8eu64 ^ 1) == clmul(0x200u64, 0x1053u64) ^ 1,
        clmul(0x2u64, 0x100u64) == clmul(0x0u64, 0x1053u64) ^ 0x200u64,
        clmul(0x200u64, 0xc6u64) == clmul(0x18u64, 0x1053u64) ^ 0xba8u64,
        clmul(0xba8u64, 0x26du64) == clmul(0x14fu64, 0x1053u64) ^ 0x3a9u64,
        clmul(0x707u64, 0x3a9u64 ^ 1) == clmul(0xa7u64, 0x1053u64) ^ 1,
        clmul(0x2u64, 0x4u64) == clmul(0x0u64, 0x1053u64) ^ 0x8u64,
        clmul(0x8u64, 0x100u64) == clmul(0x0u64, 0x1053u64) ^ 0x800u64,
        clmul(0x800u64, 0x530u64) == clmul(0x290u64, 0x1053u64) ^ 0xab0u64,
        clmul(0xab0u64, 0x22fu64) == clmul(0x141u64, 0x1053u64) ^ 0x103u64,
        clmul(0x103u64, 0x575u64) == clmul(0x56u64, 0x1053u64) ^ 0xa85u64,
        clmul(0x499u64, 0xa85u64 ^ 1) == clmul(0x2f3u64, 0x1053u64) ^ 1,
{
}

/// The characteristic polynomial of the register of 9 bits takes the state 1
/// to 0.
proof fn lemma_annihilated_09()
    ensures
        act(9, 0x211u64, 1) == 0,
{
    bit_facts();
    lemma_act_step(9, 0x1u64, 0x11u32, step(9, 0x11u32), 0);
    lemma_step_is_step_bits(9, 0x108u32);
    lemma_act_step(9, 0x2u64, 0x108u32, 0x11u32, 0x11u32);
    lemma_step_is_step_bits(9, 0x84u32);
    lemma_act_step(9, 0x4u64, 0x84u32, 0x108u32, 0x11u32);
    lemma_step_is_step_bits(9, 0x42u32);
    lemma_act_step(9, 0x8u64, 0x42u32, 0x84u32, 0x11u32);
    lemma_step_is_step_bits(9, 0x21u32);
    lemma_act_step(9, 0x10u64, 0x21u32, 0x42u32, 0x11u32);
    lemma_step_is_step_bits(9, 0x10u32);
    lemma_act_step(9, 0x21u64, 0x10u32, 0x21u32, 0x11u32);
    lemma_step_is_step_bits(9, 0x8u32);
    lemma_act_step(9, 0x42u64, 0x8u32, 0x10u32, 0x1u32);
    lemma_step_is_step_bits(9, 0x4u32);
    lemma_act_step(9, 0x84u64, 0x4u32, 0x8u32, 0x1u32);
    lemma_step_is_step_bits(9, 0x2u32);
    lemma_act_step(9, 0x108u64, 0x2u32, 0x4u32, 0x1u32);
    lemma_step_is_step_bits(9, 0x1u32);
    lemma_act_step(9, 0x211u64, 0x1u32, 0x2u32, 0x1u32);
}

/// The polynomials that stand for 1, 2, 4, ... steps of the register of 9
/// bits.
proof fn lemma_squares_09()
    ensures
        power_is(9, 1, 0x2u64),
        power_is(9, 2, 0x4u64),
        power_is(9, 4, 0x10u64),
        power_is(9, 8, 0x100u64),
        power_is(9, 16, 0xc4u64),
        power_is(9, 32, 0xa9u64),
        power_is(9, 64, 0x52u64),
        power_is(9, 128, 0x18cu64),
        power_is(9, 256, 0xa5u64),
        power_is(9, 512, 0x2u64),
{
    bit_facts();
    lemma_annihilated_09();
    lemma_power_one(9);
    lemma_power_mul(9, 0x211u64, 1, 0x2u64, 1, 0x2u64, 0x0u64, 0x4u64);
    lemma_power_mul(9, 0x211u64, 2, 0x4u64, 2, 0x4u64, 0x0u64, 0x10u64);
    lemma_power_mul(9, 0x211u64, 4, 0x10u64, 4, 0x10u64, 0x0u64, 0x100u64);
    lemma_power_mul(9, 0x211u64, 8, 0x100u64, 8, 0x100u64, 0x84u64, 0xc4u64);
    lemma_power_mul(9, 0x211u64, 16, 0xc4u64, 16, 0xc4u64, 0x29u64, 0xa9u64);
    lemma_power_mul(9, 0x211u64, 32, 0xa9u64, 32, 0xa9u64, 0x23u64, 0x52u64);
    lemma_power_mul(9, 0x211u64, 64, 0x52u64, 64, 0x52u64, 0x8u64, 0x18cu64);
    lemma_power_mul(9, 0x211u64, 128, 0x18cu64, 128, 0x18cu64, 0xa5u64, 0xa5u64);
    lemma_power_mul(9, 0x211u64, 256, 0xa5u64, 256, 0xa5u64, 0x23u64, 0x2u64);
}

/// 73 steps do not take the state 1 of the register of 9 bits to
/// itself.
proof fn lemma_moves_09_7()
    ensures
        !is_period(9, 1, 73),
{
    bit_facts();
    lemma_annihilated_09();
    lemma_squares_09();
    lemma_power_mul(9, 0x211u64, 1, 0x2u64, 8, 0x100u64, 0x1u64, 0x11u64);
    lemma_power_mul(9, 0x211u64, 9, 0x11u64, 64, 0x52u64, 0x2u64, 0x150u64);
    lemma_power_moves(9, 0x211u64, 73, 0x150u64, 0x1cu64, 0xdu64);
}

/// 7 steps do not take the state 1 of the register of 9 bits to
/// itself.
proof fn lemma_moves_09_73()
    ensures
        !is_period(9, 1, 7),
{
    bit_facts();
    lemma_annihilated_09();
    lemma_squares_09();
    lemma_power_mul(9, 0x211u64, 1, 0x2u64, 2, 0x4u64, 0x0u64, 0x8u64);
    lemma_power_mul(9, 0x211u64, 3, 0x8u64, 4, 0x10u64, 0x0u64, 0x80u64);
    lemma_power_moves(9, 0x211u64, 7, 0x80u64, 0x1e8u64, 0x79u64);
}

/// The state 1 of the register of 9 bits comes back after 511 steps and
/// not before.
pub proof fn lemma_unit_period_09(k: nat)
    requires
        0 < k < 511,
    ensures
        is_period(9, 1, 511),
        !is_period(9, 1, k),
{
    lemma_squares_09();
    lemma_cycle_start(9, 1, 512);
    lemma_moves_09_7();
    lemma_prime_7();
    lemma_moves_09_73();
    lemma_prime_73();
    let f0 = Seq::<nat>::empty();
    assert(product(f0) == 1);
    let f1 = f0.push(7);
    lemma_product_push(f0, 7);
    assert(product(f1) == 7);
    let f2 = f1.push(73);
    lemma_product_push(f1, 73);
    assert(product(f2) == 511);
    let factors = f2;
    assert forall|j: int| 0 <= j < factors.len() implies !is_period(
        9,
        1,
        511nat / #[trigger] factors[j],
    ) by {
        if j == 0 {
            assert(factors[0] == 7);
            assert(511nat / 7nat == 73);
        }
        if j == 1 {
            assert(factors[1] == 73);
            assert(511nat / 73nat == 7);
        }
    }
    lemma_mask_facts(9);
    lemma_exact_period(9, 1, 511, factors, k);
}

/// The characteristic polynomial of the register of 10 bits takes the state 1
/// to 0.
proof fn lemma_annihilated_10()
    ensures
        act(10, 0x409u64, 1) == 0,
{
    bit_facts();
    lemma_act_step(10, 0x1u64, 0x9u32, step(10, 0x9u32), 0);
    lemma_step_is_step_bits(10, 0x204u32);
    lemma_act_step(10, 0x2u64, 0x204u32, 0x9u32, 0x9u32);
    lemma_step_is_step_bits(10, 0x102u32);
    lemma_act_step(10, 0x4u64, 0x102u32, 0x204u32, 0x9u32);
    lemma_step_is_step_bits(10, 0x81u32);
    lemma_act_step(10, 0x8u64, 0x81u32, 0x102u32, 0x9u32);
    lemma_step_is_step_bits(10, 0x40u32);
    lemma_act_step(10, 0x10u64, 0x40u32, 0x81u32, 0x9u32);
    lemma_step_is_step_bits(10, 0x20u32);
    lemma_act_step(10, 0x20u64, 0x20u32, 0x40u32, 0x9u32);
    lemma_step_is_step_bits(10, 0x10u32);
    lemma_act_step(10, 0x40u64, 0x10u32, 0x20u32, 0x9u32);
    lemma_step_is_step_bits(10, 0x8u32);
    lemma_act_step(10, 0x81u64, 0x8u32, 0x10u32, 0x9u32);
    lemma_step_is_step_bits(10, 0x4u32);
    lemma_act_step(10, 0x102u64, 0x4u32, 0x8u32, 0x1u32);
    lemma_step_is_step_bits(10, 0x2u32);
    lemma_act_step(10, 0x204u64, 0x2u32, 0x4u32, 0x1u32);
    lemma_step_is_step_bits(10, 0x1u32);
    lemma_act_step(10, 0x409u64, 0x1u32, 0x2u32, 0x1u32);
}

/// The polynomials that stand for 1, 2, 4, ... steps of the register of 10
/// bits.
proof fn lemma_squares_10()
    ensures
        power_is(10, 1, 0x2u64),
        power_is(10, 2, 0x4u64),
        power_is(10, 4, 0x10u64),
        power_is(10, 8, 0x100u64),
        power_is(10, 16, 0x240u64),
        power_is(10, 32, 0x136u64),
        power_is(10, 64, 0x35du64),
        power_is(10, 128, 0x227u64),
        power_is(10, 256, 0x10eu64),
        power_is(10, 512, 0x214u64),
        power_is(10, 1024, 0x2u64),
{
    bit_facts();
    lemma_annihilated_10();
    lemma_power_one(10);
    lemma_power_mul(10, 0x409u64, 1, 0x2u64, 1, 0x2u64, 0x0u64, 0x4u64);
    lemma_power_mul(10, 0x409u64, 2, 0x4u64, 2, 0x4u64, 0x0u64, 0x10u64);
    lemma_power_mul(10, 0x409u64, 4, 0x10u64, 4, 0x10u64, 0x0u64, 0x100u64);
    lemma_power_mul(10, 0x409u64, 8, 0x100u64, 8, 0x100u64, 0x40u64, 0x240u64);
    lemma_power_mul(10, 0x409u64, 16, 0x240u64, 16, 0x240u64, 0x106u64, 0x136u64);
    lemma_power_mul(10, 0x409u64, 32, 0x136u64, 32, 0x136u64, 0x41u64, 0x35du64);
    lemma_power_mul(10, 0x409u64, 64, 0x35du64, 64, 0x35du64, 0x146u64, 0x227u64);
    lemma_power_mul(10, 0x409u64, 128, 0x227u64, 128, 0x227u64, 0x103u64, 0x10eu64);
    lemma_power_mul(10, 0x409u64, 256, 0x10eu64, 256, 0x10eu64, 0x40u64, 0x214u64);
    lemma_power_mul(10, 0x409u64, 512, 0x214u64, 512, 0x214u64, 0x102u64, 0x2u64);
}

/// 341 steps do not take the state 1 of the register of 10 bits to
/// itself.
proof fn lemma_moves_10_3()
    ensures
        !is_period(10, 1, 341),
{
    bit_facts();
    lemma_annihilated_10();
    lemma_squares_10();
    lemma_power_mul(10, 0x409u64, 1, 0x2u64, 4, 0x10u64, 0x0u64, 0x20u64);
    lemma_power_mul(10, 0x409u64, 5, 0x20u64, 16, 0x240u64, 0x12u64, 0x82u64);
    lemma_power_mul(10, 0x409u64, 21, 0x82u64, 64, 0x35du64, 0x6au64, 0x300u64);
    lemma_power_mul(10, 0x409u64, 85, 0x300u64, 256, 0x10eu64, 0xc5u64, 0xedu64);
    lemma_power_moves(10, 0x409u64, 341, 0xedu64, 0xedu64, 0x15u64);
}

/// 93 steps do not take the state 1 of the register of 10 bits to
/// itself.
proof fn lemma_moves_10_11()
    ensures
        !is_period(10, 1, 93),
{
    bit_facts();
    lemma_annihilated_10();
    lemma_squares_10();
    lemma_power_mul(10, 0x409u64, 1, 0x2u64, 4, 0x10u64, 0x0u64, 0x20u64);
    lemma_power_mul(10, 0x409u64, 5, 0x20u64, 8, 0x100u64, 0x8u64, 0x48u64);
    lemma_power_mul(10, 0x409u64, 13, 0x48u64, 16, 0x240u64, 0x20u64, 0x320u64);
    lemma_power_mul(10, 0x409u64, 29, 0x320u64, 64, 0x35du64, 0x161u64, 0x2c9u64);
    lemma_power_moves(10, 0x409u64, 93, 0x2c9u64, 0x28eu64, 0x139u64);
}

/// 33 steps do not take the state 1 of the register of 10 bits to
/// itself.
proof fn lemma_moves_10_31()
    ensures
        !is_period(10, 1, 33),
{
    bit_facts();
    lemma_annihilated_10();
    lemma_squares_10();
    lemma_power_mul(10, 0x409u64, 1, 0x2u64, 32, 0x136u64, 0x0u64, 0x26cu64);
    lemma_power_moves(10, 0x409u64, 33, 0x26cu64, 0x357u64, 0x182u64);
}

/// The state 1 of the register of 10 bits comes back after 1023 steps and
/// not before.
pub proof fn lemma_unit_period_10(k: nat)
    requires
        0 < k < 1023,
    ensures
        is_period(10, 1, 1023),
        !is_period(10, 1, k),
{
    lemma_squares_10();
    lemma_cycle_start(10, 1, 1024);
    lemma_moves_10_3();
    lemma_prime_3();
    lemma_moves_10_11();
    lemma_prime_11();
    lemma_moves_10_31();
    lemma_prime_31();
    let f0 = Seq::<nat>::empty();
    assert(product(f0) == 1);
    let f1 = f0.push(3);
    lemma_product_push(f0, 3);
    assert(product(f1) == 3);
    let f2 = f1.push(11);
    lemma_product_push(f1, 11);
    assert(product(f2) == 33);
    let f3 = f2.push(31);
    lemma_product_push(f2, 31);
    assert(product(f3) == 1023);
    let factors = f3;
    assert forall|j: int| 0 <= j < factors.len() implies !is_period(
        10,
        1,
        1023nat / #[trigger] factors[j],
    ) by {
        if j == 0 {
            assert(factors[0] == 3);
            assert(1023nat / 3nat == 341);
        }
        if j == 1 {
            assert(factors[1] == 11);
            assert(1023nat / 11nat == 93);
        }
        if j == 2 {
            assert(factors[2] == 31);
            assert(1023nat / 31nat == 33);
        }
    }
    lemma_mask_facts(10);
    lemma_exact_period(10, 1, 1023, factors, k);
}

/// The characteristic polynomial of the register of 11 bits takes the state 1
/// to 0.
proof fn lemma_annihilated_11()
    ensures
        act(11, 0x805u64, 1) == 0,
{
    bit_facts();
    lemma_act_step(11, 0x1u64, 0x5u32, step(11, 0x5u32), 0);
    lemma_step_is_step_bits(11, 0x402u32);
    lemma_act_step(11, 0x2u64, 0x402u32, 0x5u32, 0x5u32);
    lemma_step_is_step_bits(11, 0x201u32);
    lemma_act_step(11, 0x4u64, 0x201u32, 0x402u32, 0x5u32);
    lemma_step_is_step_bits(11, 0x100u32);
    lemma_act_step(11, 0x8u64, 0x100u32, 0x201u32, 0x5u32);
    lemma_step_is_step_bits(11, 0x80u32);
    lemma_act_step(11, 0x10u64, 0x80u32, 0x100u32, 0x5u32);
    lemma_step_is_step_bits(11, 0x40u32);
    lemma_act_step(11, 0x20u64, 0x40u32, 0x80u32, 0x5u32);
    lemma_step_is_step_bits(11, 0x20u32);
    lemma_act_step(11, 0x40u64, 0x20u32, 0x40u32, 0x5u32);
    lemma_step_is_step_bits(11, 0x10u32);
    lemma_act_step(11, 0x80u64, 0x10u32, 0x20u32, 0x5u32);
    lemma_step_is_step_bits(11, 0x8u32);
    lemma_act_step(11, 0x100u64, 0x8u32, 0x10u32, 0x5u32);
    lemma_step_is_step_bits(11, 0x4u32);
    lemma_act_step(11, 0x201u64, 0x4u32, 0x8u32, 0x5u32);
    lemma_step_is_step_bits(11, 0x2u32);
    lemma_act_step(11, 0x402u64, 0x2u32, 0x4u32, 0x1u32);
    lemma_step_is_step_bits(11, 0x1u32);
    lemma_act_step(11, 0x805u64, 0x1u32, 0x2u32, 0x1u32);
}

/// The polynomials that stand for 1, 2, 4, ... steps of the register of 11
/// bits.
proof fn lemma_squares_11()
    ensures
        power_is(11, 1, 0x2u64),
        power_is(11, 2, 0x4u64),
        power_is(11, 4, 0x10u64),
        power_is(11, 8, 0x100u64),
        power_is(11, 16, 0xa0u64),
        power_is(11, 32, 0x428u64),
        power_is(11, 64, 0x645u64),
        power_is(11, 128, 0x9eu64),
        power_is(11, 256, 0x17cu64),
        power_is(11, 512, 0x5fau64),
        power_is(11, 1024, 0x7c3u64),
        power_is(11, 2048, 0x2u64),
{
    bit_facts();
    lemma_annihilated_11();
    lemma_power_one(11);
    lemma_power_mul(11, 0x805u64, 1, 0x2u64, 1, 0x2u64, 0x0u64, 0x4u64);
    lemma_power_mul(11, 0x805u64, 2, 0x4u64, 2, 0x4u64, 0x0u64, 0x10u64);
    lemma_power_mul(11, 0x805u64, 4, 0x10u64, 4, 0x10u64, 0x0u64, 0x100u64);
    lemma_power_mul(11, 0x805u64, 8, 0x100u64, 8, 0x100u64, 0x20u64, 0xa0u64);
    lemma_power_mul(11, 0x805u64, 16, 0xa0u64, 16, 0xa0u64, 0x8u64, 0x428u64);
    lemma_power_mul(11, 0x805u64, 32, 0x428u64, 32, 0x428u64, 0x201u64, 0x645u64);
    lemma_power_mul(11, 0x805u64, 64, 0x645u64, 64, 0x645u64, 0x283u64, 0x9eu64);
    lemma_power_mul(11, 0x805u64, 128, 0x9eu64, 128, 0x9eu64, 0x8u64, 0x17cu64);
    lemma_power_mul(11, 0x805u64, 256, 0x17cu64, 256, 0x17cu64, 0x22u64, 0x5fau64);
    lemma_power_mul(11, 0x805u64, 512, 0x5fau64, 512, 0x5fau64, 0x22bu64, 0x7c3u64);
    lemma_power_mul(11, 0x805u64, 1024, 0x7c3u64, 1024, 0x7c3u64, 0x2abu64, 0x2u64);
}

/// 89 steps do not take the state 1 of the register of 11 bits to
/// itself.
proof fn lemma_moves_11_23()
    ensures
        !is_period(11, 1, 89),
{
    bit_facts();
    lemma_annihilated_11();
    lemma_squares_11();
    lemma_power_mul(11, 0x805u64, 1, 0x2u64, 8, 0x100u64, 0x0u64, 0x200u64);
    lemma_power_mul(11, 0x805u64, 9, 0x200u64, 16, 0xa0u64, 0x28u64, 0x88u64);
    lemma_power_mul(11, 0x805u64, 25, 0x88u64, 64, 0x645u64, 0x62u64, 0x142u64);
    lemma_power_moves(11, 0x805u64, 89, 0x142u64, 0x20cu64, 0x51u64);
}

/// 23 steps do not take the state 1 of the register of 11 bits to
/// itself.
proof fn lemma_moves_11_89()
    ensures
        !is_period(11, 1, 23),
{
    bit_facts();
    lemma_annihilated_11();
    lemma_squares_11();
    lemma_power_mul(11, 0x805u64, 1, 0x2u64, 2, 0x4u64, 0x0u64, 0x8u64);
    lemma_power_mul(11, 0x805u64, 3, 0x8u64, 4, 0x10u64, 0x0u64, 0x80u64);
    lemma_power_mul(11, 0x805u64, 7, 0x80u64, 16, 0xa0u64, 0xau64, 0x22u64);
    lemma_power_moves(11, 0x805u64, 23, 0x22u64, 0x195u64, 0x6u64);
}

/// The state 1 of the register of 11 bits comes back after 2047 steps and
/// not before.
pub proof fn lemma_unit_period_11(k: nat)
    requires
        0 < k < 2047,
    ensures
        is_period(11, 1, 2047),
        !is_period(11, 1, k),
{
    lemma_squares_11();
    lemma_cycle_start(11, 1, 2048);
    lemma_moves_11_23();
    lemma_prime_23();
    lemma_moves_11_89();
    lemma_prime_89();
    let f0 = Seq::<nat>::empty();
    assert(product(f0) == 1);
    let f1 = f0.push(23);
    lemma_product_push(f0, 23);
    assert(product(f1) == 23);
    let f2 = f1.push(89);
    lemma_product_push(f1, 89);
    assert(product(f2) == 2047);
    let factors = f2;
    assert forall|j: int| 0 <= j < factors.len() implies !is_period(
        11,
        1,
        2047nat / #[trigger] factors[j],
    ) by {
        if j == 0 {
            assert(factors[0] == 23);
            assert(2047nat / 23nat == 89);
        }
        if j == 1 {
            assert(factors[1] == 89);
            assert(2047nat / 89nat == 23);
        }
    }
    lemma_mask_facts(11);
    lemma_exact_period(11, 1, 2047, factors, k);
}

/// The characteristic polynomial of the register of 12 bits takes the state 1
/// to 0.
proof fn lemma_annihilated_12()
    ensures
        act(12, 0x1053u64, 1) == 0,
{
    bit_facts();
    lemma_act_step(12, 0x1u64, 0x52u32, step(12, 0x52u32), 0);
    lemma_step_is_step_bits(12, 0x829u32);
    lemma_act_step(12, 0x2u64, 0x829u32, 0x52u32, 0x52u32);
    lemma_step_is_step_bits(12, 0x414u32);
    lemma_act_step(12, 0x4u64, 0x414u32, 0x829u32, 0x52u32);
    lemma_step_is_step_bits(12, 0x20au32);
    lemma_act_step(12, 0x8u64, 0x20au32, 0x414u32, 0x52u32);
    lemma_step_is_step_bits(12, 0x105u32);
    lemma_act_step(12, 0x10u64, 0x105u32, 0x20au32, 0x52u32);
    lemma_step_is_step_bits(12, 0x82u32);
    lemma_act_step(12, 0x20u64, 0x82u32, 0x105u32, 0x52u32);
    lemma_step_is_step_bits(12, 0x41u32);
    lemma_act_step(12, 0x41u64, 0x41u32, 0x82u32, 0x52u32);
    lemma_step_is_step_bits(12, 0x20u32);
    lemma_act_step(12, 0x82u64, 0x20u32, 0x41u32, 0x13u32);
    lemma_step_is_step_bits(12, 0x10u32);
    lemma_act_step(12, 0x105u64, 0x10u32, 0x20u32, 0x13u32);
    lemma_step_is_step_bits(12, 0x8u32);
    lemma_act_step(12, 0x20au64, 0x8u32, 0x10u32, 0x3u32);
    lemma_step_is_step_bits(12, 0x4u32);
    lemma_act_step(12, 0x414u64, 0x4u32, 0x8u32, 0x3u32);
    lemma_step_is_step_bits(12, 0x2u32);
    lemma_act_step(12, 0x829u64, 0x2u32, 0x4u32, 0x3u32);
    lemma_step_is_step_bits(12, 0x1u32);
    lemma_act_step(12, 0x1053u64, 0x1u32, 0x2u32, 0x1u32);
}

/// The polynomials that stand for 1, 2, 4, ... steps of the register of 12
/// bits.
proof fn lemma_squares_12()
    ensures
        power_is(12, 1, 0x2u64),
        power_is(12, 2, 0x4u64),
        power_is(12, 4, 0x10u64),
        power_is(12, 8, 0x100u64),
        power_is(12, 16, 0x530u64),
        power_is(12, 32, 0x22fu64),
        power_is(12, 64, 0xc6u64),
        power_is(12, 128, 0x10bu64),
        power_is(12, 256, 0x575u64),
        power_is(12, 512, 0x26du64),
        power_is(12, 1024, 0x91u64),
        power_is(12, 2048, 0x4du64),
        power_is(12, 4096, 0x2u64),
{
    bit_facts();
    lemma_annihilated_12();
    lemma_power_one(12);
    lemma_power_mul(12, 0x1053u64, 1, 0x2u64, 1, 0x2u64, 0x0u64, 0x4u64);
    lemma_power_mul(12, 0x1053u64, 2, 0x4u64, 2, 0x4u64, 0x0u64, 0x10u64);
    lemma_power_mul(12, 0x1053u64, 4, 0x10u64, 4, 0x10u64, 0x0u64, 0x100u64);
    lemma_power_mul(12, 0x1053u64, 8, 0x100u64, 8, 0x100u64, 0x10u64, 0x530u64);
    lemma_power_mul(12, 0x1053u64, 16, 0x530u64, 16, 0x530u64, 0x115u64, 0x22fu64);
    lemma_power_mul(12, 0x1053u64, 32, 0x22fu64, 32, 0x22fu64, 0x41u64, 0xc6u64);
    lemma_power_mul(12, 0x1053u64, 64, 0xc6u64, 64, 0xc6u64, 0x5u64, 0x10bu64);
    lemma_power_mul(12, 0x1053u64, 128, 0x10bu64, 128, 0x10bu64, 0x10u64, 0x575u64);
    lemma_power_mul(12, 0x1053u64, 256, 0x575u64, 256, 0x575u64, 0x114u64, 0x26du64);
    lemma_power_mul(12, 0x1053u64, 512, 0x26du64, 512, 0x26du64, 0x40u64, 0x91u64);
    lemma_power_mul(12, 0x1053u64, 1024, 0x91u64, 1024, 0x91u64, 0x4u64, 0x4du64);
    lemma_power_mul(12, 0x1053u64, 2048, 0x4du64, 2048, 0x4du64, 0x1u64, 0x2u64);
}

/// 1365 steps do not take the state 1 of the register of 12 bits to
/// itself.
proof fn lemma_moves_12_3()
    ensures
        !is_period(12, 1, 1365),
{
    bit_facts();
    lemma_annihilated_12();
    lemma_squares_12();
    lemma_power_mul(12, 0x1053u64, 1, 0x2u64, 4, 0x10u64, 0x0u64, 0x20u64);
    lemma_power_mul(12, 0x1053u64, 5, 0x20u64, 16, 0x530u64, 0xau64, 0x43eu64);
    lemma_power_mul(12, 0x1053u64, 21, 0x43eu64, 64, 0xc6u64, 0x30u64, 0x754u64);
    lemma_power_mul(12, 0x1053u64, 85, 0x754u64, 256, 0x575u64, 0x1b2u64, 0x1b2u64);
    lemma_power_mul(12, 0x1053u64, 341, 0x1b2u64, 1024, 0x91u64, 0xcu64, 0x46u64);
    lemma_power_moves(12, 0x1053u64, 1365, 0x46u64, 0x46u64, 0x1u64);
}

/// 819 steps do not take the state 1 of the register of 12 bits to
/// itself.
proof fn lemma_moves_12_5()
    ensures
        !is_period(12, 1, 819),
{
    bit_facts();
    lemma_annihilated_12();
    lemma_squares_12();
    lemma_power_mul(12, 0x1053u64, 1, 0x2u64, 2, 0x4u64, 0x0u64, 0x8u64);
    lemma_power_mul(12, 0x1053u64, 3, 0x8u64, 16, 0x530u64, 0x2u64, 0x926u64);
    lemma_power_mul(12, 0x1053u64, 19, 0x926u64, 32, 0x22fu64, 0x134u64, 0x31eu64);
    lemma_power_mul(12, 0x1053u64, 51, 0x31eu64, 256, 0x575u64, 0xfcu64, 0xd02u64);
    lemma_power_mul(12, 0x1053u64, 307, 0xd02u64, 512, 0x26du64, 0x18cu64, 0xc8eu64);
    lemma_power_moves(12, 0x1053u64, 819, 0xc8eu64, 0x7b3u64, 0x200u64);
}

/// 585 steps do not take the state 1 of the register of 12 bits to
/// itself.
proof fn lemma_moves_12_7()
    ensures
        !is_period(12, 1, 585),
{
    bit_facts();
    lemma_annihilated_12();
    lemma_squares_12();
    lemma_power_mul(12, 0x1053u64, 1, 0x2u64, 8, 0x100u64, 0x0u64, 0x200u64);
    lemma_power_mul(12, 0x1053u64, 9, 0x200u64, 64, 0xc6u64, 0x18u64, 0xba8u64);
    lemma_power_mul(12, 0x1053u64, 73, 0xba8u64, 512, 0x26du64, 0x14fu64, 0x3a9u64);
    lemma_power_moves(12, 0x1053u64, 585, 0x3a9u64, 0x707u64, 0xa7u64);
}

/// 315 steps do not take the state 1 of the register of 12 bits to
/// itself.
proof fn lemma_moves_12_13()
    ensures
        !is_period(12, 1, 315),
{
    bit_facts();
    lemma_annihilated_12();
    lemma_squares_12();
    lemma_power_mul(12, 0x1053u64, 1, 0x2u64, 2, 0x4u64, 0x0u64, 0x8u64);
    lemma_power_mul(12, 0x1053u64, 3, 0x8u64, 8, 0x100u64, 0x0u64, 0x800u64);
    lemma_power_mul(12, 0x1053u64, 11, 0x800u64, 16, 0x530u64, 0x290u64, 0xab0u64);
    lemma_power_mul(12, 0x1053u64, 27, 0xab0u64, 32, 0x22fu64, 0x141u64, 0x103u64);
    lemma_power_mul(12, 0x1053u64, 59, 0x103u64, 256, 0x575u64, 0x56u64, 0xa85u64);
    lemma_power_moves(12, 0x1053u64, 315, 0xa85u64, 0x499u64, 0x2f3u64);
}

/// The state 1 of the register of 12 bits comes back after 4095 steps and
/// not before.
pub proof fn lemma_unit_period_12(k: nat)
    requires
        0 < k < 4095,
    ensures
        is_period(12, 1, 4095),
        !is_period(12, 1, k),
{
    lemma_squares_12();
    lemma_cycle_start(12, 1, 4096);
    lemma_moves_12_3();
    lemma_prime_3();
    lemma_moves_12_5();
    lemma_prime_5();
    lemma_moves_12_7();
    lemma_prime_7();
    lemma_moves_12_13();
    lemma_prime_13();
    let f0 = Seq::<nat>::empty();
    assert(product(f0) == 1);
    let f1 = f0.push(3);
    lemma_product_push(f0, 3);
    assert(product(f1) == 3);
    let f2 = f1.push(3);
    lemma_product_push(f1, 3);
    assert(product(f2) == 9);
    let f3 = f2.push(5);
    lemma_product_push(f2, 5);
    assert(product(f3) == 45);
    let f4 = f3.push(7);
    lemma_product_push(f3, 7);
    assert(product(f4) == 315);
    let f5 = f4.push(13);
    lemma_product_push(f4, 13);
    assert(product(f5) == 4095);
    let factors = f5;
    assert forall|j: int| 0 <= j < factors.len() implies !is_period(
        12,
        1,
        4095nat / #[trigger] factors[j],
    ) by {
        if j == 0 {
            assert(factors[0] == 3);
            assert(4095nat / 3nat == 1365);
        }
        if j == 1 {
            assert(factors[1] == 3);
            assert(4095nat / 3nat == 1365);
        }
        if j == 2 {
            assert(factors[2] == 5);
            assert(4095nat / 5nat == 819);
        }
        if j == 3 {
            assert(factors[3] == 7);
            assert(4095nat / 7nat == 585);
        }
        if j == 4 {
            assert(factors[4] == 13);
            assert(4095nat / 13nat == 315);
        }
    }
    lemma_mask_facts(12);
    lemma_exact_period(12, 1, 4095, factors, k);
}

} // verus!
