//! The registers of 1 to 8 bits: the state 1 has period `2^n - 1` exactly.

use crate::divisors::{lemma_product_push, product};
use crate::mls::{lemma_mask_facts, step};
use crate::mls_algebra::{act, clmul, iterate, lemma_step_is_step_bits, step_bits};
use crate::mls_orbit::{
    is_period, lemma_act_step, lemma_cycle_start, lemma_exact_period, lemma_power_moves,
    lemma_power_mul, lemma_power_one, power_is,
};
use crate::primes::{
    lemma_prime_127, lemma_prime_17, lemma_prime_3, lemma_prime_31, lemma_prime_5, lemma_prime_7,
};
use vstd::prelude::*;

verus! {

/// What bit arithmetic says of these registers: the first steps from the state 1,
/// and products of polynomials modulo the characteristic polynomial.
proof fn bit_facts()
    by (bit_vector)
    ensures
        step_bits(1, 0x1u32) == 0x1u32,
        step_bits(2, 0x1u32) == 0x3u32,
        step_bits(2, 0x3u32) == 0x2u32,
        0x2u32 ^ 0x0u32 == 0x2u32,
        0x3u32 ^ 0x2u32 == 0x1u32,
        0x1u32 ^ 0x1u32 == 0x0u32,
        clmul(0x2u64, 0x2u64) == clmul(0x1u64, 0x7u64) ^ 0x3u64,
        clmul(0x3u64, 0x3u64) == clmul(0x1u64, 0x7u64) ^ 0x2u64,
        clmul(0x2u64, 0x2u64 ^ 1) == clmul(0x1u64, 0x7u64) ^ 1,
        step_bits(3, 0x1u32) == 0x2u32,
        step_bits(3, 0x2u32) == 0x5u32,
        step_bits(3, 0x5u32) == 0x3u32,
        0x3u32 ^ 0x0u32 == 0x3u32,
        0x2u32 ^ 0x3u32 == 0x1u32,
        0x1u32 ^ 0x1u32 == 0x0u32,
        clmul(0x2u64, 0x2u64) == clmul(0x0u64, 0xbu64) ^ 0x4u64,
        clmul(0x4u64, 0x4u64) == clmul(0x2u64, 0xbu64) ^ 0x6u64,
        clmul(0x6u64, 0x6u64) == clmul(0x2u64, 0xbu64) ^ 0x2u64,
        clmul(0x6u64, 0x2u64 ^ 1) == clmul(0x1u64, 0xbu64) ^ 1,
        step_bits(4, 0x1u32) == 0x2u32,
        step_bits(4, 0x2u32) == 0x4u32,
        step_bits(4, 0x4u32) == 0x9u32,
        step_bits(4, 0x9u32) == 0x3u32,
        0x3u32 ^ 0x0u32 == 0x3u32,
        0x2u32 ^ 0x3u32 == 0x1u32,
        0x1u32 ^ 0x1u32 == 0x0u32,
        clmul(0x2u64, 0x2u64) == clmul(0x0u64, 0x13u64) ^ 0x4u64,
        clmul(0x4u64, 0x4u64) == clmul(0x1u64, 0x13u64) ^ 0x3u64,
        clmul(0x3u64, 0x3u64) == clmul(0x0u64, 0x13u64) ^ 0x5u64,
        clmul(0x5u64, 0x5u64) == clmul(0x1u64, 0x13u64) ^ 0x2u64,
        clmul(0x2u64, 0x3u64) == clmul(0x0u64, 0x13u64) ^ 0x6u64,
        clmul(0x6u64, 0x6u64 ^ 1) == clmul(0x1u64, 0x13u64) ^ 1,
        clmul(0x2u64, 0x4u64) == clmul(0x0u64, 0x13u64) ^ 0x8u64,
        clmul(0x2u64, 0x8u64 ^ 1) == clmul(0x1u64, 0x13u64) ^ 1,
        step_bits(5, 0x1u32) == 0x2u32,
        step_bits(5, 0x2u32) == 0x4u32,
        step_bits(5, 0x4u32) == 0x9u32,
        step_bits(5, 0x9u32) == 0x12u32,
        step_bits(5, 0x12u32) == 0x5u32,
        0x5u32 ^ 0x0u32 == 0x5u32,
        0x4u32 ^ 0x5u32 == 0x1u32,
        0x1u32 ^ 0x1u32 == 0x0u32,
        clmul(0x2u64, 0x2u64) == clmul(0x0u64, 0x25u64) ^ 0x4u64,
        clmul(0x4u64, 0x4u64) == clmul(0x0u64, 0x25u64) ^ 0x10u64,
        clmul(0x10u64, 0x10u64) == clmul(0x9u64, 0x25u64) ^ 0xdu64,
        clmul(0xdu64, 0xdu64) == clmul(0x2u64, 0x25u64) ^ 0x1bu64,
        clmul(0x1bu64, 0x1bu64) == clmul(0xbu64, 0x25u64) ^ 0x2u64,
        clmul(0x1cu64, 0x2u64 ^ 1) == clmul(0x1u64, 0x25u64) ^ 1,
        step_bits(6, 0x1u32) == 0x2u32,
        step_bits(6, 0x2u32) == 0x4u32,
        step_bits(6, 0x4u32) == 0x8u32,
        step_bits(6, 0x8u32) == 0x10u32,
        step_bits(6, 0x10u32) == 0x21u32,
        step_bits(6, 0x21u32) == 0x3u32,
        0x3u32 ^ 0x0u32 == 0x3u32,
        0x2u32 ^ 0x3u32 == 0x1u32,
        0x1u32 ^ 0x1u32 == 0x0u32,
        clmul(0x2u64, 0x2u64) == clmul(0x0u64, 0x43u64) ^ 0x4u64,
        clmul(0x4u64, 0x4u64) == clmul(0x0u64, 0x43u64) ^ 0x10u64,
        clmul(0x10u64, 0x10u64) == clmul(0x4u64, 0x43u64) ^ 0xcu64,
        clmul(0xcu64, 0xcu64) == clmul(0x1u64, 0x43u64) ^ 0x13u64,
        clmul(0x13u64, 0x13u64) == clmul(0x4u64, 0x43u64) ^ 0x9u64,
        clmul(0x9u64, 0x9u64) == clmul(0x1u64, 0x43u64) ^ 0x2u64,
        clmul(0x2u64, 0x10u64) == clmul(0x0u64, 0x43u64) ^ 0x20u64,
        clmul(0x20u64, 0x13u64) == clmul(0x9u64, 0x43u64) ^ 0x3bu64,
        clmul(0x3bu64, 0x3bu64 ^ 1) == clmul(0x15u64, 0x43u64) ^ 1,
        clmul(0x2u64, 0xcu64) == clmul(0x0u64, 0x43u64) ^ 0x18u64,
        clmul(0xfu64, 0x18u64 ^ 1) == clmul(0x2u64, 0x43u64) ^ 1,
        step_bits(7, 0x1u32) == 0x2u32,
        step_bits(7, 0x2u32) == 0x4u32,
        step_bits(7, 0x4u32) == 0x8u32,
        step_bits(7, 0x8u32) == 0x11u32,
        step_bits(7, 0x11u32) == 0x22u32,
        step_bits(7, 0x22u32) == 0x44u32,
        step_bits(7, 0x44u32) == 0x9u32,
        0x9u32 ^ 0x0u32 == 0x9u32,
        0x8u32 ^ 0x9u32 == 0x1u32,
        0x1u32 ^ 0x1u32 == 0x0u32,
        clmul(0x2u64, 0x2u64) == clmul(0x0u64, 0x89u64) ^ 0x4u64,
        clmul(0x4u64, 0x4u64) == clmul(0x0u64, 0x89u64) ^ 0x10u64,
        clmul(0x10u64, 0x10u64) == clmul(0x2u64, 0x89u64) ^ 0x12u64,
        clmul(0x12u64, 0x12u64) == clmul(0x2u64, 0x89u64) ^ 0x16u64,
        clmul(0x16u64, 0x16u64) == clmul(0x2u64, 0x89u64) ^ 0x6u64,
        clmul(0x6u64, 0x6u64) == clmul(0x0u64, 0x89u64) ^ 0x14u64,
        clmul(0x14u64, 0x14u64) == clmul(0x2u64, 0x89u64) ^ 0x2u64,
        clmul(0x78u64, 0x2u64 ^ 1) == clmul(0x1u64, 0x89u64) ^ 1,
        step_bits(8, 0x1u32) == 0x2u32,
        step_bits(8, 0x2u32) == 0x4u32,
        step_bits(8, 0x4u32) == 0x8u32,
        step_bits(8, 0x8u32) == 0x11u32,
        step_bits(8, 0x11u32) == 0x23u32,
        step_bits(8, 0x23u32) == 0x47u32,
        step_bits(8, 0x47u32) == 0x8eu32,
        step_bits(8, 0x8eu32) == 0x1cu32,
        0x1cu32 ^ 0x0u32 == 0x1cu32,
        0x11u32 ^ 0x1cu32 == 0xdu32,
        0x8u32 ^ 0xdu32 == 0x5u32,
        0x4u32 ^ 0x5u32 == 0x1u32,
        0x1u32 ^ 0x1u32 == 0x0u32,
        clmul(0x2u64, 0x2u64) == clmul(0x0u64, 0x11du64) ^ 0x4u64,
        clmul(0x4u64, 0x4u64) == clmul(0x0u64, 0x11du64) ^ 0x10u64,
        clmul(0x10u64, 0x10u64) == clmul(0x1u64, 0x11du64) ^ 0x1du64,
        clmul(0x1du64, 0x1du64) == clmul(0x1u64, 0x11du64) ^ 0x4cu64,
        clmul(0x4cu64, 0x4cu64) == clmul(0x11u64, 0x11du64) ^ 0x9du64,
        clmul(0x9du64, 0x9du64) == clmul(0x46u64, 0x11du64) ^ 0x5fu64,
        clmul(0x5fu64, 0x5fu64) == clmul(0x10u64, 0x11du64) ^ 0x85u64,
        clmul(0x85u64, 0x85u64) == clmul(0x47u64, 0x11du64) ^ 0x2u64,
        clmul(0x2u64, 0x10u64) == clmul(0x0u64, 0x11du64) ^ 0x20u64,
        clmul(0x20u64, 0x4cu64) == clmul(0x9u64, 0x11du64) ^ 0x75u64,
        clmul(0x75u64, 0x5fu64) == clmul(0x19u64, 0x11du64) ^ 0xd6u64,
        clmul(0xd6u64, 0xd6u64 ^ 1) == clmul(0x57u64, 0x11du64) ^ 1,
        clmul(0x2u64, 0x4u64) == clmul(0x0u64, 0x11du64) ^ 0x8u64,
        clmul(0x8u64, 0x4cu64) == clmul(0x2u64, 0x11du64) ^ 0x5au64,
        clmul(0x5au64, 0x9du64) == clmul(0x28u64, 0x11du64) ^ 0xau64,
        clmul(0x98u64, 0xau64 ^ 1) == clmul(0x5u64, 0x11du64) ^ 1,
        clmul(0x2u64, 0x4u64) == clmul(0x0u64, 0x11du64) ^ 0x8u64,
        clmul(0x8u64, 0x10u64) == clmul(0x0u64, 0x11du64) ^ 0x80u64,
        clmul(0x80u64, 0x1du64) == clmul(0xeu64, 0x11du64) ^ 0x26u64,
        clmul(0x8au64, 0x26u64 ^ 1) == clmul(0x13u64, 0x11du64) ^ 1,
{
}

/// A register of 1 bit stays at 1.
pub proof fn lemma_unit_period_01()
    ensures
        is_period(1, 1, 1),
{
    bit_facts();
    lemma_step_is_step_bits(1, 1);
    assert(iterate(1, 1, 1) == step(1, iterate(1, 1, 0)));
}

/// The characteristic polynomial of the register of 2 bits takes the state 1
/// to 0.
proof fn lemma_annihilated_02()
    ensures
        act(2, 0x7u64, 1) == 0,
{
    bit_facts();
    lemma_act_step(2, 0x1u64, 0x2u32, step(2, 0x2u32), 0);
    lemma_step_is_step_bits(2, 0x3u32);
    lemma_act_step(2, 0x3u64, 0x3u32, 0x2u32, 0x2u32);
    lemma_step_is_step_bits(2, 0x1u32);
    lemma_act_step(2, 0x7u64, 0x1u32, 0x3u32, 0x1u32);
}

/// The polynomials that stand for 1, 2, 4, ... steps of the register of 2
/// bits.
proof fn lemma_squares_02()
    ensures
        power_is(2, 1, 0x2u64),
        power_is(2, 2, 0x3u64),
        power_is(2, 4, 0x2u64),
{
    bit_facts();
    lemma_annihilated_02();
    lemma_power_one(2);
    lemma_power_mul(2, 0x7u64, 1, 0x2u64, 1, 0x2u64, 0x1u64, 0x3u64);
    lemma_power_mul(2, 0x7u64, 2, 0x3u64, 2, 0x3u64, 0x1u64, 0x2u64);
}

/// One step does not take the state 1 of the register of 2 bits to itself.
proof fn lemma_moves_02_3()
    ensures
        !is_period(2, 1, 1),
{
    bit_facts();
    lemma_annihilated_02();
    lemma_squares_02();
    lemma_power_moves(2, 0x7u64, 1, 0x2u64, 0x2u64, 0x1u64);
}

/// The state 1 of the register of 2 bits comes back after 3 steps and
/// not before.
pub proof fn lemma_unit_period_02(k: nat)
    requires
        0 < k < 3,
    ensures
        is_period(2, 1, 3),
        !is_period(2, 1, k),
{
    lemma_squares_02();
    lemma_cycle_start(2, 1, 4);
    lemma_moves_02_3();
    lemma_prime_3();
    let f0 = Seq::<nat>::empty();
    assert(product(f0) == 1);
    let f1 = f0.push(3);
    lemma_product_push(f0, 3);
    assert(product(f1) == 3);
    let factors = f1;
    assert forall|j: int| 0 <= j < factors.len() implies !is_period(
        2,
        1,
        3nat / #[trigger] factors[j],
    ) by {
        if j == 0 {
            assert(factors[0] == 3);
            assert(3nat / 3nat == 1);
        }
    }
    lemma_mask_facts(2);
    lemma_exact_period(2, 1, 3, factors, k);
}

/// The characteristic polynomial of the register of 3 bits takes the state 1
/// to 0.
proof fn lemma_annihilated_03()
    ensures
        act(3, 0xbu64, 1) == 0,
{
    bit_facts();
    lemma_act_step(3, 0x1u64, 0x3u32, step(3, 0x3u32), 0);
    lemma_step_is_step_bits(3, 0x5u32);
    lemma_act_step(3, 0x2u64, 0x5u32, 0x3u32, 0x3u32);
    lemma_step_is_step_bits(3, 0x2u32);
    lemma_act_step(3, 0x5u64, 0x2u32, 0x5u32, 0x3u32);
    lemma_step_is_step_bits(3, 0x1u32);
    lemma_act_step(3, 0xbu64, 0x1u32, 0x2u32, 0x1u32);
}

/// The polynomials that stand for 1, 2, 4, ... steps of the register of 3
/// bits.
proof fn lemma_squares_03()
    ensures
        power_is(3, 1, 0x2u64),
        power_is(3, 2, 0x4u64),
        power_is(3, 4, 0x6u64),
        power_is(3, 8, 0x2u64),
{
    bit_facts();
    lemma_annihilated_03();
    lemma_power_one(3);
    lemma_power_mul(3, 0xbu64, 1, 0x2u64, 1, 0x2u64, 0x0u64, 0x4u64);
    lemma_power_mul(3, 0xbu64, 2, 0x4u64, 2, 0x4u64, 0x2u64, 0x6u64);
    lemma_power_mul(3, 0xbu64, 4, 0x6u64, 4, 0x6u64, 0x2u64, 0x2u64);
}

/// One step does not take the state 1 of the register of 3 bits to itself.
proof fn lemma_moves_03_7()
    ensures
        !is_period(3, 1, 1),
{
    bit_facts();
    lemma_annihilated_03();
    lemma_squares_03();
    lemma_power_moves(3, 0xbu64, 1, 0x2u64, 0x6u64, 0x1u64);
}

/// The state 1 of the register of 3 bits comes back after 7 steps and
/// not before.
pub proof fn lemma_unit_period_03(k: nat)
    requires
        0 < k < 7,
    ensures
        is_period(3, 1, 7),
        !is_period(3, 1, k),
{
    lemma_squares_03();
    lemma_cycle_start(3, 1, 8);
    lemma_moves_03_7();
    lemma_prime_7();
    let f0 = Seq::<nat>::empty();
    assert(product(f0) == 1);
    let f1 = f0.push(7);
    lemma_product_push(f0, 7);
    assert(product(f1) == 7);
    let factors = f1;
    assert forall|j: int| 0 <= j < factors.len() implies !is_period(
        3,
        1,
        7nat / #[trigger] factors[j],
    ) by {
        if j == 0 {
            assert(factors[0] == 7);
            assert(7nat / 7nat == 1);
        }
    }
    lemma_mask_facts(3);
    lemma_exact_period(3, 1, 7, factors, k);
}

/// The characteristic polynomial of the register of 4 bits takes the state 1
/// to 0.
proof fn lemma_annihilated_04()
    ensures
        act(4, 0x13u64, 1) == 0,
{
    bit_facts();
    lemma_act_step(4, 0x1u64, 0x3u32, step(4, 0x3u32), 0);
    lemma_step_is_step_bits(4, 0x9u32);
    lemma_act_step(4, 0x2u64, 0x9u32, 0x3u32, 0x3u32);
    lemma_step_is_step_bits(4, 0x4u32);
    lemma_act_step(4, 0x4u64, 0x4u32, 0x9u32, 0x3u32);
    lemma_step_is_step_bits(4, 0x2u32);
    lemma_act_step(4, 0x9u64, 0x2u32, 0x4u32, 0x3u32);
    lemma_step_is_step_bits(4, 0x1u32);
    lemma_act_step(4, 0x13u64, 0x1u32, 0x2u32, 0x1u32);
}

/// The polynomials that stand for 1, 2, 4, ... steps of the register of 4
/// bits.
proof fn lemma_squares_04()
    ensures
        power_is(4, 1, 0x2u64),
        power_is(4, 2, 0x4u64),
        power_is(4, 4, 0x3u64),
        power_is(4, 8, 0x5u64),
        power_is(4, 16, 0x2u64),
{
    bit_facts();
    lemma_annihilated_04();
    lemma_power_one(4);
    lemma_power_mul(4, 0x13u64, 1, 0x2u64, 1, 0x2u64, 0x0u64, 0x4u64);
    lemma_power_mul(4, 0x13u64, 2, 0x4u64, 2, 0x4u64, 0x1u64, 0x3u64);
    lemma_power_mul(4, 0x13u64, 4, 0x3u64, 4, 0x3u64, 0x0u64, 0x5u64);
    lemma_power_mul(4, 0x13u64, 8, 0x5u64, 8, 0x5u64, 0x1u64, 0x2u64);
}

/// 5 steps do not take the state 1 of the register of 4 bits to
/// itself.
proof fn lemma_moves_04_3()
    ensures
        !is_period(4, 1, 5),
{
    bit_facts();
    lemma_annihilated_04();
    lemma_squares_04();
    lemma_power_mul(4, 0x13u64, 1, 0x2u64, 4, 0x3u64, 0x0u64, 0x6u64);
    lemma_power_moves(4, 0x13u64, 5, 0x6u64, 0x6u64, 0x1u64);
}

/// 3 steps do not take the state 1 of the register of 4 bits to
/// itself.
proof fn lemma_moves_04_5()
    ensures
        !is_period(4, 1, 3),
{
    bit_facts();
    lemma_annihilated_04();
    lemma_squares_04();
    lemma_power_mul(4, 0x13u64, 1, 0x2u64, 2, 0x4u64, 0x0u64, 0x8u64);
    lemma_power_moves(4, 0x13u64, 3, 0x8u64, 0x2u64, 0x1u64);
}

/// The state 1 of the register of 4 bits comes back after 15 steps and
/// not before.
pub proof fn lemma_unit_period_04(k: nat)
    requires
        0 < k < 15,
    ensures
        is_period(4, 1, 15),
        !is_period(4, 1, k),
{
    lemma_squares_04();
    lemma_cycle_start(4, 1, 16);
    lemma_moves_04_3();
    lemma_prime_3();
    lemma_moves_04_5();
    lemma_prime_5();
    let f0 = Seq::<nat>::empty();
    assert(product(f0) == 1);
    let f1 = f0.push(3);
    lemma_product_push(f0, 3);
    assert(product(f1) == 3);
    let f2 = f1.push(5);
    lemma_product_push(f1, 5);
    assert(product(f2) == 15);
    let factors = f2;
    assert forall|j: int| 0 <= j < factors.len() implies !is_period(
        4,
        1,
        15nat / #[trigger] factors[j],
    ) by {
        if j == 0 {
            assert(factors[0] == 3);
            assert(15nat / 3nat == 5);
        }
        if j == 1 {
            assert(factors[1] == 5);
            assert(15nat / 5nat == 3);
        }
    }
    lemma_mask_facts(4);
    lemma_exact_period(4, 1, 15, factors, k);
}

/// The characteristic polynomial of the register of 5 bits takes the state 1
/// to 0.
proof fn lemma_annihilated_05()
    ensures
        act(5, 0x25u64, 1) == 0,
{
    bit_facts();
    lemma_act_step(5, 0x1u64, 0x5u32, step(5, 0x5u32), 0);
    lemma_step_is_step_bits(5, 0x12u32);
    lemma_act_step(5, 0x2u64, 0x12u32, 0x5u32, 0x5u32);
    lemma_step_is_step_bits(5, 0x9u32);
    lemma_act_step(5, 0x4u64, 0x9u32, 0x12u32, 0x5u32);
    lemma_step_is_step_bits(5, 0x4u32);
    lemma_act_step(5, 0x9u64, 0x4u32, 0x9u32, 0x5u32);
    lemma_step_is_step_bits(5, 0x2u32);
    lemma_act_step(5, 0x12u64, 0x2u32, 0x4u32, 0x1u32);
    lemma_step_is_step_bits(5, 0x1u32);
    lemma_act_step(5, 0x25u64, 0x1u32, 0x2u32, 0x1u32);
}

/// The polynomials that stand for 1, 2, 4, ... steps of the register of 5
/// bits.
proof fn lemma_squares_05()
    ensures
        power_is(5, 1, 0x2u64),
        power_is(5, 2, 0x4u64),
        power_is(5, 4, 0x10u64),
        power_is(5, 8, 0xdu64),
        power_is(5, 16, 0x1bu64),
        power_is(5, 32, 0x2u64),
{
    bit_facts();
    lemma_annihilated_05();
    lemma_power_one(5);
    lemma_power_mul(5, 0x25u64, 1, 0x2u64, 1, 0x2u64, 0x0u64, 0x4u64);
    lemma_power_mul(5, 0x25u64, 2, 0x4u64, 2, 0x4u64, 0x0u64, 0x10u64);
    lemma_power_mul(5, 0x25u64, 4, 0x10u64, 4, 0x10u64, 0x9u64, 0xdu64);
    lemma_power_mul(5, 0x25u64, 8, 0xdu64, 8, 0xdu64, 0x2u64, 0x1bu64);
    lemma_power_mul(5, 0x25u64, 16, 0x1bu64, 16, 0x1bu64, 0xbu64, 0x2u64);
}

/// One step does not take the state 1 of the register of 5 bits to itself.
proof fn lemma_moves_05_31()
    ensures
        !is_period(5, 1, 1),
{
    bit_facts();
    lemma_annihilated_05();
    lemma_squares_05();
    lemma_power_moves(5, 0x25u64, 1, 0x2u64, 0x1cu64, 0x1u64);
}

/// The state 1 of the register of 5 bits comes back after 31 steps and
/// not before.
pub proof fn lemma_unit_period_05(k: nat)
    requires
        0 < k < 31,
    ensures
        is_period(5, 1, 31),
        !is_period(5, 1, k),
{
    lemma_squares_05();
    lemma_cycle_start(5, 1, 32);
    lemma_moves_05_31();
    lemma_prime_31();
    let f0 = Seq::<nat>::empty();
    assert(product(f0) == 1);
    let f1 = f0.push(31);
    lemma_product_push(f0, 31);
    assert(product(f1) == 31);
    let factors = f1;
    assert forall|j: int| 0 <= j < factors.len() implies !is_period(
        5,
        1,
        31nat / #[trigger] factors[j],
    ) by {
        if j == 0 {
            assert(factors[0] == 31);
            assert(31nat / 31nat == 1);
        }
    }
    lemma_mask_facts(5);
    lemma_exact_period(5, 1, 31, factors, k);
}

/// The characteristic polynomial of the register of 6 bits takes the state 1
/// to 0.
proof fn lemma_annihilated_06()
    ensures
        act(6, 0x43u64, 1) == 0,
{
    bit_facts();
    lemma_act_step(6, 0x1u64, 0x3u32, step(6, 0x3u32), 0);
    lemma_step_is_step_bits(6, 0x21u32);
    lemma_act_step(6, 0x2u64, 0x21u32, 0x3u32, 0x3u32);
    lemma_step_is_step_bits(6, 0x10u32);
    lemma_act_step(6, 0x4u64, 0x10u32, 0x21u32, 0x3u32);
    lemma_step_is_step_bits(6, 0x8u32);
    lemma_act_step(6, 0x8u64, 0x8u32, 0x10u32, 0x3u32);
    lemma_step_is_step_bits(6, 0x4u32);
    lemma_act_step(6, 0x10u64, 0x4u32, 0x8u32, 0x3u32);
    lemma_step_is_step_bits(6, 0x2u32);
    lemma_act_step(6, 0x21u64, 0x2u32, 0x4u32, 0x3u32);
    lemma_step_is_step_bits(6, 0x1u32);
    lemma_act_step(6, 0x43u64, 0x1u32, 0x2u32, 0x1u32);
}

/// The polynomials that stand for 1, 2, 4, ... steps of the register of 6
/// bits.
proof fn lemma_squares_06()
    ensures
        power_is(6, 1, 0x2u64),
        power_is(6, 2, 0x4u64),
        power_is(6, 4, 0x10u64),
        power_is(6, 8, 0xcu64),
        power_is(6, 16, 0x13u64),
        power_is(6, 32, 0x9u64),
        power_is(6, 64, 0x2u64),
{
    bit_facts();
    lemma_annihilated_06();
    lemma_power_one(6);
    lemma_power_mul(6, 0x43u64, 1, 0x2u64, 1, 0x2u64, 0x0u64, 0x4u64);
    lemma_power_mul(6, 0x43u64, 2, 0x4u64, 2, 0x4u64, 0x0u64, 0x10u64);
    lemma_power_mul(6, 0x43u64, 4, 0x10u64, 4, 0x10u64, 0x4u64, 0xcu64);
    lemma_power_mul(6, 0x43u64, 8, 0xcu64, 8, 0xcu64, 0x1u64, 0x13u64);
    lemma_power_mul(6, 0x43u64, 16, 0x13u64, 16, 0x13u64, 0x4u64, 0x9u64);
    lemma_power_mul(6, 0x43u64, 32, 0x9u64, 32, 0x9u64, 0x1u64, 0x2u64);
}

/// 21 steps do not take the state 1 of the register of 6 bits to
/// itself.
proof fn lemma_moves_06_3()
    ensures
        !is_period(6, 1, 21),
{
    bit_facts();
    lemma_annihilated_06();
    lemma_squares_06();
    lemma_power_mul(6, 0x43u64, 1, 0x2u64, 4, 0x10u64, 0x0u64, 0x20u64);
    lemma_power_mul(6, 0x43u64, 5, 0x20u64, 16, 0x13u64, 0x9u64, 0x3bu64);
    lemma_power_moves(6, 0x43u64, 21, 0x3bu64, 0x3bu64, 0x15u64);
}

/// 9 steps do not take the state 1 of the register of 6 bits to
/// itself.
proof fn lemma_moves_06_7()
    ensures
        !is_period(6, 1, 9),
{
    bit_facts();
    lemma_annihilated_06();
    lemma_squares_06();
    lemma_power_mul(6, 0x43u64, 1, 0x2u64, 8, 0xcu64, 0x0u64, 0x18u64);
    lemma_power_moves(6, 0x43u64, 9, 0x18u64, 0xfu64, 0x2u64);
}

/// The state 1 of the register of 6 bits comes back after 63 steps and
/// not before.
pub proof fn lemma_unit_period_06(k: nat)
    requires
        0 < k < 63,
    ensures
        is_period(6, 1, 63),
        !is_period(6, 1, k),
{
    lemma_squares_06();
    lemma_cycle_start(6, 1, 64);
    lemma_moves_06_3();
    lemma_prime_3();
    lemma_moves_06_7();
    lemma_prime_7();
    let f0 = Seq::<nat>::empty();
    assert(product(f0) == 1);
    let f1 = f0.push(3);
    lemma_product_push(f0, 3);
    assert(product(f1) == 3);
    let f2 = f1.push(3);
    lemma_product_push(f1, 3);
    assert(product(f2) == 9);
    let f3 = f2.push(7);
    lemma_product_push(f2, 7);
    assert(product(f3) == 63);
    let factors = f3;
    assert forall|j: int| 0 <= j < factors.len() implies !is_period(
        6,
        1,
        63nat / #[trigger] factors[j],
    ) by {
        if j == 0 {
            assert(factors[0] == 3);
            assert(63nat / 3nat == 21);
        }
        if j == 1 {
            assert(factors[1] == 3);
            assert(63nat / 3nat == 21);
        }
        if j == 2 {
            assert(factors[2] == 7);
            assert(63nat / 7nat == 9);
        }
    }
    lemma_mask_facts(6);
    lemma_exact_period(6, 1, 63, factors, k);
}

/// The characteristic polynomial of the register of 7 bits takes the state 1
/// to 0.
proof fn lemma_annihilated_07()
    ensures
        act(7, 0x89u64, 1) == 0,
{
    bit_facts();
    lemma_act_step(7, 0x1u64, 0x9u32, step(7, 0x9u32), 0);
    lemma_step_is_step_bits(7, 0x44u32);
    lemma_act_step(7, 0x2u64, 0x44u32, 0x9u32, 0x9u32);
    lemma_step_is_step_bits(7, 0x22u32);
    lemma_act_step(7, 0x4u64, 0x22u32, 0x44u32, 0x9u32);
    lemma_step_is_step_bits(7, 0x11u32);
    lemma_act_step(7, 0x8u64, 0x11u32, 0x22u32, 0x9u32);
    lemma_step_is_step_bits(7, 0x8u32);
    lemma_act_step(7, 0x11u64, 0x8u32, 0x11u32, 0x9u32);
    lemma_step_is_step_bits(7, 0x4u32);
    lemma_act_step(7, 0x22u64, 0x4u32, 0x8u32, 0x1u32);
    lemma_step_is_step_bits(7, 0x2u32);
    lemma_act_step(7, 0x44u64, 0x2u32, 0x4u32, 0x1u32);
    lemma_step_is_step_bits(7, 0x1u32);
    lemma_act_step(7, 0x89u64, 0x1u32, 0x2u32, 0x1u32);
}

/// The polynomials that stand for 1, 2, 4, ... steps of the register of 7
/// bits.
proof fn lemma_squares_07()
    ensures
        power_is(7, 1, 0x2u64),
        power_is(7, 2, 0x4u64),
        power_is(7, 4, 0x10u64),
        power_is(7, 8, 0x12u64),
        power_is(7, 16, 0x16u64),
        power_is(7, 32, 0x6u64),
        power_is(7, 64, 0x14u64),
        power_is(7, 128, 0x2u64),
{
    bit_facts();
    lemma_annihilated_07();
    lemma_power_one(7);
    lemma_power_mul(7, 0x89u64, 1, 0x2u64, 1, 0x2u64, 0x0u64, 0x4u64);
    lemma_power_mul(7, 0x89u64, 2, 0x4u64, 2, 0x4u64, 0x0u64, 0x10u64);
    lemma_power_mul(7, 0x89u64, 4, 0x10u64, 4, 0x10u64, 0x2u64, 0x12u64);
    lemma_power_mul(7, 0x89u64, 8, 0x12u64, 8, 0x12u64, 0x2u64, 0x16u64);
    lemma_power_mul(7, 0x89u64, 16, 0x16u64, 16, 0x16u64, 0x2u64, 0x6u64);
    lemma_power_mul(7, 0x89u64, 32, 0x6u64, 32, 0x6u64, 0x0u64, 0x14u64);
    lemma_power_mul(7, 0x89u64, 64, 0x14u64, 64, 0x14u64, 0x2u64, 0x2u64);
}

/// One step does not take the state 1 of the register of 7 bits to itself.
proof fn lemma_moves_07_127()
    ensures
        !is_period(7, 1, 1),
{
    bit_facts();
    lemma_annihilated_07();
    lemma_squares_07();
    lemma_power_moves(7, 0x89u64, 1, 0x2u64, 0x78u64, 0x1u64);
}

/// The state 1 of the register of 7 bits comes back after 127 steps and
/// not before.
pub proof fn lemma_unit_period_07(k: nat)
    requires
        0 < k < 127,
    ensures
        is_period(7, 1, 127),
        !is_period(7, 1, k),
{
    lemma_squares_07();
    lemma_cycle_start(7, 1, 128);
    lemma_moves_07_127();
    lemma_prime_127();
    let f0 = Seq::<nat>::empty();
    assert(product(f0) == 1);
    let f1 = f0.push(127);
    lemma_product_push(f0, 127);
    assert(product(f1) == 127);
    let factors = f1;
    assert forall|j: int| 0 <= j < factors.len() implies !is_period(
        7,
        1,
        127nat / #[trigger] factors[j],
    ) by {
        if j == 0 {
            assert(factors[0] == 127);
            assert(127nat / 127nat == 1);
        }
    }
    lemma_mask_facts(7);
    lemma_exact_period(7, 1, 127, factors, k);
}

/// The characteristic polynomial of the register of 8 bits takes the state 1
/// to 0.
proof fn lemma_annihilated_08()
    ensures
        act(8, 0x11du64, 1) == 0,
{
    bit_facts();
    lemma_act_step(8, 0x1u64, 0x1cu32, step(8, 0x1cu32), 0);
    lemma_step_is_step_bits(8, 0x8eu32);
    lemma_act_step(8, 0x2u64, 0x8eu32, 0x1cu32, 0x1cu32);
    lemma_step_is_step_bits(8, 0x47u32);
    lemma_act_step(8, 0x4u64, 0x47u32, 0x8eu32, 0x1cu32);
    lemma_step_is_step_bits(8, 0x23u32);
    lemma_act_step(8, 0x8u64, 0x23u32, 0x47u32, 0x1cu32);
    lemma_step_is_step_bits(8, 0x11u32);
    lemma_act_step(8, 0x11u64, 0x11u32, 0x23u32, 0x1cu32);
    lemma_step_is_step_bits(8, 0x8u32);
    lemma_act_step(8, 0x23u64, 0x8u32, 0x11u32, 0xdu32);
    lemma_step_is_step_bits(8, 0x4u32);
    lemma_act_step(8, 0x47u64, 0x4u32, 0x8u32, 0x5u32);
    lemma_step_is_step_bits(8, 0x2u32);
    lemma_act_step(8, 0x8eu64, 0x2u32, 0x4u32, 0x1u32);
    lemma_step_is_step_bits(8, 0x1u32);
    lemma_act_step(8, 0x11du64, 0x1u32, 0x2u32, 0x1u32);
}

/// The polynomials that stand for 1, 2, 4, ... steps of the register of 8
/// bits.
proof fn lemma_squares_08()
    ensures
        power_is(8, 1, 0x2u64),
        power_is(8, 2, 0x4u64),
        power_is(8, 4, 0x10u64),
        power_is(8, 8, 0x1du64),
        power_is(8, 16, 0x4cu64),
        power_is(8, 32, 0x9du64),
        power_is(8, 64, 0x5fu64),
        power_is(8, 128, 0x85u64),
        power_is(8, 256, 0x2u64),
{
    bit_facts();
    lemma_annihilated_08();
    lemma_power_one(8);
    lemma_power_mul(8, 0x11du64, 1, 0x2u64, 1, 0x2u64, 0x0u64, 0x4u64);
    lemma_power_mul(8, 0x11du64, 2, 0x4u64, 2, 0x4u64, 0x0u64, 0x10u64);
    lemma_power_mul(8, 0x11du64, 4, 0x10u64, 4, 0x10u64, 0x1u64, 0x1du64);
    lemma_power_mul(8, 0x11du64, 8, 0x1du64, 8, 0x1du64, 0x1u64, 0x4cu64);
    lemma_power_mul(8, 0x11du64, 16, 0x4cu64, 16, 0x4cu64, 0x11u64, 0x9du64);
    lemma_power_mul(8, 0x11du64, 32, 0x9du64, 32, 0x9du64, 0x46u64, 0x5fu64);
    lemma_power_mul(8, 0x11du64, 64, 0x5fu64, 64, 0x5fu64, 0x10u64, 0x85u64);
    lemma_power_mul(8, 0x11du64, 128, 0x85u64, 128, 0x85u64, 0x47u64, 0x2u64);
}

/// 85 steps do not take the state 1 of the register of 8 bits to
/// itself.
proof fn lemma_moves_08_3()
    ensures
        !is_period(8, 1, 85),
{
    bit_facts();
    lemma_annihilated_08();
    lemma_squares_08();
    lemma_power_mul(8, 0x11du64, 1, 0x2u64, 4, 0x10u64, 0x0u64, 0x20u64);
    lemma_power_mul(8, 0x11du64, 5, 0x20u64, 16, 0x4cu64, 0x9u64, 0x75u64);
    lemma_power_mul(8, 0x11du64, 21, 0x75u64, 64, 0x5fu64, 0x19u64, 0xd6u64);
    lemma_power_moves(8, 0x11du64, 85, 0xd6u64, 0xd6u64, 0x57u64);
}

/// 51 steps do not take the state 1 of the register of 8 bits to
/// itself.
proof fn lemma_moves_08_5()
    ensures
        !is_period(8, 1, 51),
{
    bit_facts();
    lemma_annihilated_08();
    lemma_squares_08();
    lemma_power_mul(8, 0x11du64, 1, 0x2u64, 2, 0x4u64, 0x0u64, 0x8u64);
    lemma_power_mul(8, 0x11du64, 3, 0x8u64, 16, 0x4cu64, 0x2u64, 0x5au64);
    lemma_power_mul(8, 0x11du64, 19, 0x5au64, 32, 0x9du64, 0x28u64, 0xau64);
    lemma_power_moves(8, 0x11du64, 51, 0xau64, 0x98u64, 0x5u64);
}

/// 15 steps do not take the state 1 of the register of 8 bits to
/// itself.
proof fn lemma_moves_08_17()
    ensures
        !is_period(8, 1, 15),
{
    bit_facts();
    lemma_annihilated_08();
    lemma_squares_08();
    lemma_power_mul(8, 0x11du64, 1, 0x2u64, 2, 0x4u64, 0x0u64, 0x8u64);
    lemma_power_mul(8, 0x11du64, 3, 0x8u64, 4, 0x10u64, 0x0u64, 0x80u64);
    lemma_power_mul(8, 0x11du64, 7, 0x80u64, 8, 0x1du64, 0xeu64, 0x26u64);
    lemma_power_moves(8, 0x11du64, 15, 0x26u64, 0x8au64, 0x13u64);
}

/// The state 1 of the register of 8 bits comes back after 255 steps and
/// not before.
pub proof fn lemma_unit_period_08(k: nat)
    requires
        0 < k < 255,
    ensures
        is_period(8, 1, 255),
        !is_period(8, 1, k),
{
    lemma_squares_08();
    lemma_cycle_start(8, 1, 256);
    lemma_moves_08_3();
    lemma_prime_3();
    lemma_moves_08_5();
    lemma_prime_5();
    lemma_moves_08_17();
    lemma_prime_17();
    let f0 = Seq::<nat>::empty();
    assert(product(f0) == 1);
    let f1 = f0.push(3);
    lemma_product_push(f0, 3);
    assert(product(f1) == 3);
    let f2 = f1.push(5);
    lemma_product_push(f1, 5);
    assert(product(f2) == 15);
    let f3 = f2.push(17);
    lemma_product_push(f2, 17);
    assert(product(f3) == 255);
    let factors = f3;
    assert forall|j: int| 0 <= j < factors.len() implies !is_period(
        8,
        1,
        255nat / #[trigger] factors[j],
    ) by {
        if j == 0 {
            assert(factors[0] == 3);
            assert(255nat / 3nat == 85);
        }
        if j == 1 {
            assert(factors[1] == 5);
            assert(255nat / 5nat == 51);
        }
        if j == 2 {
            assert(factors[2] == 17);
            assert(255nat / 17nat == 15);
        }
    }
    lemma_mask_facts(8);
    lemma_exact_period(8, 1, 255, factors, k);
}

} // verus!
