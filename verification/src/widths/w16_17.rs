//! The registers of 16 to 17 bits: the state 1 has period `2^n - 1` exactly.

use crate::divisors::{lemma_product_push, product};
use crate::mls::{lemma_mask_facts, step};
use crate::mls_algebra::{act, clmul, iterate, lemma_step_is_step_bits, step_bits};
use crate::mls_orbit::{
    is_period, lemma_act_step, lemma_cycle_start, lemma_exact_period, lemma_power_moves,
    lemma_power_mul, lemma_power_one, power_is,
};
use crate::primes::{
    lemma_prime_131071, lemma_prime_17, lemma_prime_257, lemma_prime_3, lemma_prime_5,
};
use vstd::prelude::*;

verus! {

/// What bit arithmetic says of these registers: the first steps from the state 1,
/// and products of polynomials modulo the characteristic polynomial.
proof fn bit_facts()
    by (bit_vector)
    ensures
        step_bits(16, 0x1u32) == 0x2u32,
        step_bits(16, 0x2u32) == 0x4u32,
        step_bits(16, 0x4u32) == 0x8u32,
        step_bits(16, 0x8u32) == 0x11u32,
        step_bits(16, 0x11u32) == 0x22u32,
        step_bits(16, 0x22u32) == 0x44u32,
        step_bits(16, 0x44u32) == 0x88u32,
        step_bits(16, 0x88u32) == 0x111u32,
        step_bits(16, 0x111u32) == 0x222u32,
        step_bits(16, 0x222u32) == 0x444u32,
        step_bits(16, 0x444u32) == 0x888u32,
        step_bits(16, 0x888u32) == 0x1111u32,
        step_bits(16, 0x1111u32) == 0x2223u32,
        step_bits(16, 0x2223u32) == 0x4446u32,
        step_bits(16, 0x4446u32) == 0x888du32,
        step_bits(16, 0x888du32) == 0x111au32,
        0x111au32 ^ 0x0u32 == 0x111au32,
        0x1111u32 ^ 0x111au32 == 0xbu32,
        0x8u32 ^ 0xbu32 == 0x3u32,
        0x2u32 ^ 0x3u32 == 0x1u32,
        0x1u32 ^ 0x1u32 == 0x0u32,
        clmul(0x2u64, 0x2u64) == clmul(0x0u64, 0x1100bu64) ^ 0x4u64,
        clmul(0x4u64, 0x4u64) == clmul(0x0u64, 0x1100bu64) ^ 0x10u64,
        clmul(0x10u64, 0x10u64) == clmul(0x0u64, 0x1100bu64) ^ 0x100u64,
        clmul(0x100u64, 0x100u64) == clmul(0x1u64, 0x1100bu64) ^ 0x100bu64,
        clmul(0x100bu64, 0x100bu64) == clmul(0x111u64, 0x1100bu64) ^ 0x1bfeu64,
        clmul(0x1bfeu64, 0x1bfeu64) == clmul(0x150u64, 0x1100bu64) ^ 0x5c24u64,
        clmul(0x5c24u64, 0x5c24u64) == clmul(0x1055u64, 0x1100bu64) ^ 0xe647u64,
        clmul(0xe647u64, 0xe647u64) == clmul(0x5106u64, 0x1100bu64) ^ 0xb2fu64,
        clmul(0xb2fu64, 0xb2fu64) == clmul(0x41u64, 0x1100bu64) ^ 0x169eu64,
        clmul(0x169eu64, 0x169eu64) == clmul(0x104u64, 0x1100bu64) ^ 0xa78u64,
        clmul(0xa78u64, 0xa78u64) == clmul(0x40u64, 0x1100bu64) ^ 0x1780u64,
        clmul(0x1780u64, 0x1780u64) == clmul(0x105u64, 0x1100bu64) ^ 0x1b27u64,
        clmul(0x1b27u64, 0x1b27u64) == clmul(0x150u64, 0x1100bu64) ^ 0xd65u64,
        clmul(0xd65u64, 0xd65u64) == clmul(0x54u64, 0x1100bu64) ^ 0x564du64,
        clmul(0x564du64, 0x564du64) == clmul(0x1015u64, 0x1100bu64) ^ 0xf0c6u64,
        clmul(0xf0c6u64, 0xf0c6u64) == clmul(0x5002u64, 0x1100bu64) ^ 0x2u64,
        clmul(0x2u64, 0x10u64) == clmul(0x0u64, 0x1100bu64) ^ 0x20u64,
        clmul(0x20u64, 0x100bu64) == clmul(0x2u64, 0x1100bu64) ^ 0x2176u64,
        clmul(0x2176u64, 0x5c24u64) == clmul(0xb77u64, 0x1100bu64) ^ 0x1539u64,
        clmul(0x1539u64, 0xb2fu64) == clmul(0x9du64, 0x1100bu64) ^ 0x3308u64,
        clmul(0x3308u64, 0xa78u64) == clmul(0x1e8u64, 0x1100bu64) ^ 0xd6b8u64,
        clmul(0xd6b8u64, 0x1b27u64) == clmul(0xa1cu64, 0x1100bu64) ^ 0xf0ecu64,
        clmul(0xf0ecu64, 0x564du64) == clmul(0x320eu64, 0x1100bu64) ^ 0x15eu64,
        clmul(0x15eu64, 0x15eu64 ^ 1) == clmul(0x1u64, 0x1100bu64) ^ 1,
        clmul(0x2u64, 0x4u64) == clmul(0x0u64, 0x1100bu64) ^ 0x8u64,
        clmul(0x8u64, 0x100bu64) == clmul(0x0u64, 0x1100bu64) ^ 0x8058u64,
        clmul(0x8058u64, 0x1bfeu64) == clmul(0xd2au64, 0x1100bu64) ^ 0x41beu64,
        clmul(0x41beu64, 0xb2fu64) == clmul(0x2eau64, 0x1100bu64) ^ 0x7c64u64,
        clmul(0x7c64u64, 0x169eu64) == clmul(0x69du64, 0x1100bu64) ^ 0xe977u64,
        clmul(0xe977u64, 0x1b27u64) == clmul(0x87fu64, 0x1100bu64) ^ 0x4adcu64,
        clmul(0x4adcu64, 0xd65u64) == clmul(0x31cu64, 0x1100bu64) ^ 0x1ce8u64,
        clmul(0x1au64, 0x1ce8u64 ^ 1) == clmul(0x1u64, 0x1100bu64) ^ 1,
        clmul(0x2u64, 0x4u64) == clmul(0x0u64, 0x1100bu64) ^ 0x8u64,
        clmul(0x8u64, 0x10u64) == clmul(0x0u64, 0x1100bu64) ^ 0x80u64,
        clmul(0x80u64, 0x100u64) == clmul(0x0u64, 0x1100bu64) ^ 0x8000u64,
        clmul(0x8000u64, 0xb2fu64) == clmul(0x5cbu64, 0x1100bu64) ^ 0x1005u64,
        clmul(0x1005u64, 0x169eu64) == clmul(0x17eu64, 0x1100bu64) ^ 0x4494u64,
        clmul(0x4494u64, 0xa78u64) == clmul(0x29bu64, 0x1100bu64) ^ 0xf115u64,
        clmul(0xf115u64, 0x1780u64) == clmul(0xd68u64, 0x1100bu64) ^ 0x4d78u64,
        clmul(0x17c5u64, 0x4d78u64 ^ 1) == clmul(0x554u64, 0x1100bu64) ^ 1,
        clmul(0x2u64, 0x4u64) == clmul(0x0u64, 0x1100bu64) ^ 0x8u64,
        clmul(0x8u64, 0x10u64) == clmul(0x0u64, 0x1100bu64) ^ 0x80u64,
        clmul(0x80u64, 0x100u64) == clmul(0x0u64, 0x1100bu64) ^ 0x8000u64,
        clmul(0x8000u64, 0x100bu64) == clmul(0x88du64, 0x1100bu64) ^ 0xdffu64,
        clmul(0xdffu64, 0x1bfeu64) == clmul(0xa8u64, 0x1100bu64) ^ 0x2e12u64,
        clmul(0x2e12u64, 0x5c24u64) == clmul(0x82au64, 0x1100bu64) ^ 0xfb26u64,
        clmul(0xfb26u64, 0xe647u64) == clmul(0x5ba0u64, 0x1100bu64) ^ 0x8d92u64,
        clmul(0x5db5u64, 0x8d92u64 ^ 1) == clmul(0x2fcau64, 0x1100bu64) ^ 1,
        step_bits(17, 0x1u32) == 0x2u32,
        step_bits(17, 0x2u32) == 0x4u32,
        step_bits(17, 0x4u32) == 0x8u32,
        step_bits(17, 0x8u32) == 0x10u32,
        step_bits(17, 0x10u32) == 0x20u32,
        step_bits(17, 0x20u32) == 0x40u32,
        step_bits(17, 0x40u32) == 0x80u32,
        step_bits(17, 0x80u32) == 0x100u32,
        step_bits(17, 0x100u32) == 0x200u32,
        step_bits(17, 0x200u32) == 0x400u32,
        step_bits(17, 0x400u32) == 0x800u32,
        step_bits(17, 0x800u32) == 0x1000u32,
        step_bits(17, 0x1000u32) == 0x2000u32,
        step_bits(17, 0x2000u32) == 0x4001u32,
        step_bits(17, 0x4001u32) == 0x8002u32,
        step_bits(17, 0x8002u32) == 0x10004u32,
        step_bits(17, 0x10004u32) == 0x9u32,
        0x9u32 ^ 0x0u32 == 0x9u32,
        0x8u32 ^ 0x9u32 == 0x1u32,
        0x1u32 ^ 0x1u32 == 0x0u32,
        clmul(0x2u64, 0x2u64) == clmul(0x0u64, 0x20009u64) ^ 0x4u64,
        clmul(0x4u64, 0x4u64) == clmul(0x0u64, 0x20009u64) ^ 0x10u64,
        clmul(0x10u64, 0x10u64) == clmul(0x0u64, 0x20009u64) ^ 0x100u64,
        clmul(0x100u64, 0x100u64) == clmul(0x0u64, 0x20009u64) ^ 0x10000u64,
        clmul(0x10000u64, 0x10000u64) == clmul(0x8002u64, 0x20009u64) ^ 0x8012u64,
        clmul(0x8012u64, 0x8012u64) == clmul(0x2000u64, 0x20009u64) ^ 0x12104u64,
        clmul(0x12104u64, 0x12104u64) == clmul(0x8202u64, 0x20009u64) ^ 0x19202u64,
        clmul(0x19202u64, 0x19202u64) == clmul(0xa080u64, 0x20009u64) ^ 0x1a484u64,
        clmul(0x1a484u64, 0x1a484u64) == clmul(0xa20au64, 0x20009u64) ^ 0x1f24au64,
        clmul(0x1f24au64, 0x1f24au64) == clmul(0xaa80u64, 0x20009u64) ^ 0x1eec4u64,
        clmul(0x1eec4u64, 0x1eec4u64) == clmul(0xaa28u64, 0x20009u64) ^ 0x1ab78u64,
        clmul(0x1ab78u64, 0x1ab78u64) == clmul(0xa220u64, 0x20009u64) ^ 0xa660u64,
        clmul(0xa660u64, 0xa660u64) == clmul(0x220au64, 0x20009u64) ^ 0x1265au64,
        clmul(0x1265au64, 0x1265au64) == clmul(0x8208u64, 0x20009u64) ^ 0x830cu64,
        clmul(0x830cu64, 0x830cu64) == clmul(0x2002u64, 0x20009u64) ^ 0x2042u64,
        clmul(0x2042u64, 0x2042u64) == clmul(0x200u64, 0x20009u64) ^ 0x204u64,
        clmul(0x204u64, 0x204u64) == clmul(0x2u64, 0x20009u64) ^ 0x2u64,
        clmul(0x1fff8u64, 0x2u64 ^ 1) == clmul(0x1u64, 0x20009u64) ^ 1,
{
}

/// The characteristic polynomial of the register of 16 bits takes the state 1
/// to 0.
proof fn lemma_annihilated_16()
    ensures
        act(16, 0x1100bu64, 1) == 0,
{
    bit_facts();
    lemma_act_step(16, 0x1u64, 0x111au32, step(16, 0x111au32), 0);
    lemma_step_is_step_bits(16, 0x888du32);
    lemma_act_step(16, 0x2u64, 0x888du32, 0x111au32, 0x111au32);
    lemma_step_is_step_bits(16, 0x4446u32);
    lemma_act_step(16, 0x4u64, 0x4446u32, 0x888du32, 0x111au32);
    lemma_step_is_step_bits(16, 0x2223u32);
    lemma_act_step(16, 0x8u64, 0x2223u32, 0x4446u32, 0x111au32);
    lemma_step_is_step_bits(16, 0x1111u32);
    lemma_act_step(16, 0x11u64, 0x1111u32, 0x2223u32, 0x111au32);
    lemma_step_is_step_bits(16, 0x888u32);
    lemma_act_step(16, 0x22u64, 0x888u32, 0x1111u32, 0xbu32);
    lemma_step_is_step_bits(16, 0x444u32);
    lemma_act_step(16, 0x44u64, 0x444u32, 0x888u32, 0xbu32);
    lemma_step_is_step_bits(16, 0x222u32);
    lemma_act_step(16, 0x88u64, 0x222u32, 0x444u32, 0xbu32);
    lemma_step_is_step_bits(16, 0x111u32);
    lemma_act_step(16, 0x110u64, 0x111u32, 0x222u32, 0xbu32);
    lemma_step_is_step_bits(16, 0x88u32);
    lemma_act_step(16, 0x220u64, 0x88u32, 0x111u32, 0xbu32);
    lemma_step_is_step_bits(16, 0x44u32);
    lemma_act_step(16, 0x440u64, 0x44u32, 0x88u32, 0xbu32);
    lemma_step_is_step_bits(16, 0x22u32);
    lemma_act_step(16, 0x880u64, 0x22u32, 0x44u32, 0xbu32);
    lemma_step_is_step_bits(16, 0x11u32);
    lemma_act_step(16, 0x1100u64, 0x11u32, 0x22u32, 0xbu32);
    lemma_step_is_step_bits(16, 0x8u32);
    lemma_act_step(16, 0x2201u64, 0x8u32, 0x11u32, 0xbu32);
    lemma_step_is_step_bits(16, 0x4u32);
    lemma_act_step(16, 0x4402u64, 0x4u32, 0x8u32, 0x3u32);
    lemma_step_is_step_bits(16, 0x2u32);
    lemma_act_step(16, 0x8805u64, 0x2u32, 0x4u32, 0x3u32);
    lemma_step_is_step_bits(16, 0x1u32);
    lemma_act_step(16, 0x1100bu64, 0x1u32, 0x2u32, 0x1u32);
}

/// The polynomials that stand for 1, 2, 4, ... steps of the register of 16
/// bits.
proof fn lemma_squares_16()
    ensures
        power_is(16, 1, 0x2u64),
        power_is(16, 2, 0x4u64),
        power_is(16, 4, 0x10u64),
        power_is(16, 8, 0x100u64),
        power_is(16, 16, 0x100bu64),
        power_is(16, 32, 0x1bfeu64),
        power_is(16, 64, 0x5c24u64),
        power_is(16, 128, 0xe647u64),
        power_is(16, 256, 0xb2fu64),
        power_is(16, 512, 0x169eu64),
        power_is(16, 1024, 0xa78u64),
        power_is(16, 2048, 0x1780u64),
        power_is(16, 4096, 0x1b27u64),
        power_is(16, 8192, 0xd65u64),
        power_is(16, 16384, 0x564du64),
        power_is(16, 32768, 0xf0c6u64),
        power_is(16, 65536, 0x2u64),
{
    bit_facts();
    lemma_annihilated_16();
    lemma_power_one(16);
    lemma_power_mul(16, 0x1100bu64, 1, 0x2u64, 1, 0x2u64, 0x0u64, 0x4u64);
    lemma_power_mul(16, 0x1100bu64, 2, 0x4u64, 2, 0x4u64, 0x0u64, 0x10u64);
    lemma_power_mul(16, 0x1100bu64, 4, 0x10u64, 4, 0x10u64, 0x0u64, 0x100u64);
    lemma_power_mul(16, 0x1100bu64, 8, 0x100u64, 8, 0x100u64, 0x1u64, 0x100bu64);
    lemma_power_mul(16, 0x1100bu64, 16, 0x100bu64, 16, 0x100bu64, 0x111u64, 0x1bfeu64);
    lemma_power_mul(16, 0x1100bu64, 32, 0x1bfeu64, 32, 0x1bfeu64, 0x150u64, 0x5c24u64);
    lemma_power_mul(16, 0x1100bu64, 64, 0x5c24u64, 64, 0x5c24u64, 0x1055u64, 0xe647u64);
    lemma_power_mul(16, 0x1100bu64, 128, 0xe647u64, 128, 0xe647u64, 0x5106u64, 0xb2fu64);
    lemma_power_mul(16, 0x1100bu64, 256, 0xb2fu64, 256, 0xb2fu64, 0x41u64, 0x169eu64);
    lemma_power_mul(16, 0x1100bu64, 512, 0x169eu64, 512, 0x169eu64, 0x104u64, 0xa78u64);
    lemma_power_mul(16, 0x1100bu64, 1024, 0xa78u64, 1024, 0xa78u64, 0x40u64, 0x1780u64);
    lemma_power_mul(16, 0x1100bu64, 2048, 0x1780u64, 2048, 0x1780u64, 0x105u64, 0x1b27u64);
    lemma_power_mul(16, 0x1100bu64, 4096, 0x1b27u64, 4096, 0x1b27u64, 0x150u64, 0xd65u64);
    lemma_power_mul(16, 0x1100bu64, 8192, 0xd65u64, 8192, 0xd65u64, 0x54u64, 0x564du64);
    lemma_power_mul(16, 0x1100bu64, 16384, 0x564du64, 16384, 0x564du64, 0x1015u64, 0xf0c6u64);
    lemma_power_mul(16, 0x1100bu64, 32768, 0xf0c6u64, 32768, 0xf0c6u64, 0x5002u64, 0x2u64);
}

/// 21845 steps do not take the state 1 of the register of 16 bits to
/// itself.
proof fn lemma_moves_16_3()
    ensures
        !is_period(16, 1, 21845),
{
    bit_facts();
    lemma_annihilated_16();
    lemma_squares_16();
    lemma_power_mul(16, 0x1100bu64, 1, 0x2u64, 4, 0x10u64, 0x0u64, 0x20u64);
    lemma_power_mul(16, 0x1100bu64, 5, 0x20u64, 16, 0x100bu64, 0x2u64, 0x2176u64);
    lemma_power_mul(16, 0x1100bu64, 21, 0x2176u64, 64, 0x5c24u64, 0xb77u64, 0x1539u64);
    lemma_power_mul(16, 0x1100bu64, 85, 0x1539u64, 256, 0xb2fu64, 0x9du64, 0x3308u64);
    lemma_power_mul(16, 0x1100bu64, 341, 0x3308u64, 1024, 0xa78u64, 0x1e8u64, 0xd6b8u64);
    lemma_power_mul(16, 0x1100bu64, 1365, 0xd6b8u64, 4096, 0x1b27u64, 0xa1cu64, 0xf0ecu64);
    lemma_power_mul(16, 0x1100bu64, 5461, 0xf0ecu64, 16384, 0x564du64, 0x320eu64, 0x15eu64);
    lemma_power_moves(16, 0x1100bu64, 21845, 0x15eu64, 0x15eu64, 0x1u64);
}

/// 13107 steps do not take the state 1 of the register of 16 bits to
/// itself.
proof fn lemma_moves_16_5()
    ensures
        !is_period(16, 1, 13107),
{
    bit_facts();
    lemma_annihilated_16();
    lemma_squares_16();
    lemma_power_mul(16, 0x1100bu64, 1, 0x2u64, 2, 0x4u64, 0x0u64, 0x8u64);
    lemma_power_mul(16, 0x1100bu64, 3, 0x8u64, 16, 0x100bu64, 0x0u64, 0x8058u64);
    lemma_power_mul(16, 0x1100bu64, 19, 0x8058u64, 32, 0x1bfeu64, 0xd2au64, 0x41beu64);
    lemma_power_mul(16, 0x1100bu64, 51, 0x41beu64, 256, 0xb2fu64, 0x2eau64, 0x7c64u64);
    lemma_power_mul(16, 0x1100bu64, 307, 0x7c64u64, 512, 0x169eu64, 0x69du64, 0xe977u64);
    lemma_power_mul(16, 0x1100bu64, 819, 0xe977u64, 4096, 0x1b27u64, 0x87fu64, 0x4adcu64);
    lemma_power_mul(16, 0x1100bu64, 4915, 0x4adcu64, 8192, 0xd65u64, 0x31cu64, 0x1ce8u64);
    lemma_power_moves(16, 0x1100bu64, 13107, 0x1ce8u64, 0x1au64, 0x1u64);
}

/// 3855 steps do not take the state 1 of the register of 16 bits to
/// itself.
proof fn lemma_moves_16_17()
    ensures
        !is_period(16, 1, 3855),
{
    bit_facts();
    lemma_annihilated_16();
    lemma_squares_16();
    lemma_power_mul(16, 0x1100bu64, 1, 0x2u64, 2, 0x4u64, 0x0u64, 0x8u64);
    lemma_power_mul(16, 0x1100bu64, 3, 0x8u64, 4, 0x10u64, 0x0u64, 0x80u64);
    lemma_power_mul(16, 0x1100bu64, 7, 0x80u64, 8, 0x100u64, 0x0u64, 0x8000u64);
    lemma_power_mul(16, 0x1100bu64, 15, 0x8000u64, 256, 0xb2fu64, 0x5cbu64, 0x1005u64);
    lemma_power_mul(16, 0x1100bu64, 271, 0x1005u64, 512, 0x169eu64, 0x17eu64, 0x4494u64);
    lemma_power_mul(16, 0x1100bu64, 783, 0x4494u64, 1024, 0xa78u64, 0x29bu64, 0xf115u64);
    lemma_power_mul(16, 0x1100bu64, 1807, 0xf115u64, 2048, 0x1780u64, 0xd68u64, 0x4d78u64);
    lemma_power_moves(16, 0x1100bu64, 3855, 0x4d78u64, 0x17c5u64, 0x554u64);
}

/// 255 steps do not take the state 1 of the register of 16 bits to
/// itself.
proof fn lemma_moves_16_257()
    ensures
        !is_period(16, 1, 255),
{
    bit_facts();
    lemma_annihilated_16();
    lemma_squares_16();
    lemma_power_mul(16, 0x1100bu64, 1, 0x2u64, 2, 0x4u64, 0x0u64, 0x8u64);
    lemma_power_mul(16, 0x1100bu64, 3, 0x8u64, 4, 0x10u64, 0x0u64, 0x80u64);
    lemma_power_mul(16, 0x1100bu64, 7, 0x80u64, 8, 0x100u64, 0x0u64, 0x8000u64);
    lemma_power_mul(16, 0x1100bu64, 15, 0x8000u64, 16, 0x100bu64, 0x88du64, 0xdffu64);
    lemma_power_mul(16, 0x1100bu64, 31, 0xdffu64, 32, 0x1bfeu64, 0xa8u64, 0x2e12u64);
    lemma_power_mul(16, 0x1100bu64, 63, 0x2e12u64, 64, 0x5c24u64, 0x82au64, 0xfb26u64);
    lemma_power_mul(16, 0x1100bu64, 127, 0xfb26u64, 128, 0xe647u64, 0x5ba0u64, 0x8d92u64);
    lemma_power_moves(16, 0x1100bu64, 255, 0x8d92u64, 0x5db5u64, 0x2fcau64);
}

/// The state 1 of the register of 16 bits comes back after 65535 steps and
/// not before.
pub proof fn lemma_unit_period_16(k: nat)
    requires
        0 < k < 65535,
    ensures
        is_period(16, 1, 65535),
        !is_period(16, 1, k),
{
    lemma_squares_16();
    lemma_cycle_start(16, 1, 65536);
    lemma_moves_16_3();
    lemma_prime_3();
    lemma_moves_16_5();
    lemma_prime_5();
    lemma_moves_16_17();
    lemma_prime_17();
    lemma_moves_16_257();
    lemma_prime_257();
    let f0 = Seq::<nat>::empty();
    assert(product(f0) == 1);
    let f1 = f0.push(3);
    lemma_product_push(f0, 3);
    assert(product(f1) == 3);
    let f2 = f1.push(5);
    lemma_product_push(f1, 5);
    assert(product(f2) == 15);
    let f3 = f2.push(17);
    lemma_product_push(f2, 17);
    assert(product(f3) == 255);
    let f4 = f3.push(257);
    lemma_product_push(f3, 257);
    assert(product(f4) == 65535);
    let factors = f4;
    assert forall|j: int| 0 <= j < factors.len() implies !is_period(
        16,
        1,
        65535nat / #[trigger] factors[j],
    ) by {
        if j == 0 {
            assert(factors[0] == 3);
            assert(65535nat / 3nat == 21845);
        }
        if j == 1 {
            assert(factors[1] == 5);
            assert(65535nat / 5nat == 13107);
        }
        if j == 2 {
            assert(factors[2] == 17);
            assert(65535nat / 17nat == 3855);
        }
        if j == 3 {
            assert(factors[3] == 257);
            assert(65535nat / 257nat == 255);
        }
    }
    lemma_mask_facts(16);
    lemma_exact_period(16, 1, 65535, factors, k);
}

/// The characteristic polynomial of the register of 17 bits takes the state 1
/// to 0.
proof fn lemma_annihilated_17()
    ensures
        act(17, 0x20009u64, 1) == 0,
{
    bit_facts();
    lemma_act_step(17, 0x1u64, 0x9u32, step(17, 0x9u32), 0);
    lemma_step_is_step_bits(17, 0x10004u32);
    lemma_act_step(17, 0x2u64, 0x10004u32, 0x9u32, 0x9u32);
    lemma_step_is_step_bits(17, 0x8002u32);
    lemma_act_step(17, 0x4u64, 0x8002u32, 0x10004u32, 0x9u32);
    lemma_step_is_step_bits(17, 0x4001u32);
    lemma_act_step(17, 0x8u64, 0x4001u32, 0x8002u32, 0x9u32);
    lemma_step_is_step_bits(17, 0x2000u32);
    lemma_act_step(17, 0x10u64, 0x2000u32, 0x4001u32, 0x9u32);
    lemma_step_is_step_bits(17, 0x1000u32);
    lemma_act_step(17, 0x20u64, 0x1000u32, 0x2000u32, 0x9u32);
    lemma_step_is_step_bits(17, 0x800u32);
    lemma_act_step(17, 0x40u64, 0x800u32, 0x1000u32, 0x9u32);
    lemma_step_is_step_bits(17, 0x400u32);
    lemma_act_step(17, 0x80u64, 0x400u32, 0x800u32, 0x9u32);
    lemma_step_is_step_bits(17, 0x200u32);
    lemma_act_step(17, 0x100u64, 0x200u32, 0x400u32, 0x9u32);
    lemma_step_is_step_bits(17, 0x100u32);
    lemma_act_step(17, 0x200u64, 0x100u32, 0x200u32, 0x9u32);
    lemma_step_is_step_bits(17, 0x80u32);
    lemma_act_step(17, 0x400u64, 0x80u32, 0x100u32, 0x9u32);
    lemma_step_is_step_bits(17, 0x40u32);
    lemma_act_step(17, 0x800u64, 0x40u32, 0x80u32, 0x9u32);
    lemma_step_is_step_bits(17, 0x20u32);
    lemma_act_step(17, 0x1000u64, 0x20u32, 0x40u32, 0x9u32);
    lemma_step_is_step_bits(17, 0x10u32);
    lemma_act_step(17, 0x2000u64, 0x10u32, 0x20u32, 0x9u32);
    lemma_step_is_step_bits(17, 0x8u32);
    lemma_act_step(17, 0x4001u64, 0x8u32, 0x10u32, 0x9u32);
    lemma_step_is_step_bits(17, 0x4u32);
    lemma_act_step(17, 0x8002u64, 0x4u32, 0x8u32, 0x1u32);
    lemma_step_is_step_bits(17, 0x2u32);
    lemma_act_step(17, 0x10004u64, 0x2u32, 0x4u32, 0x1u32);
    lemma_step_is_step_bits(17, 0x1u32);
    lemma_act_step(17, 0x20009u64, 0x1u32, 0x2u32, 0x1u32);
}

/// The polynomials that stand for 1, 2, 4, ... steps of the register of 17
/// bits.
proof fn lemma_squares_17()
    ensures
        power_is(17, 1, 0x2u64),
        power_is(17, 2, 0x4u64),
        power_is(17, 4, 0x10u64),
        power_is(17, 8, 0x100u64),
        power_is(17, 16, 0x10000u64),
        power_is(17, 32, 0x8012u64),
        power_is(17, 64, 0x12104u64),
        power_is(17, 128, 0x19202u64),
        power_is(17, 256, 0x1a484u64),
        power_is(17, 512, 0x1f24au64),
        power_is(17, 1024, 0x1eec4u64),
        power_is(17, 2048, 0x1ab78u64),
        power_is(17, 4096, 0xa660u64),
        power_is(17, 8192, 0x1265au64),
        power_is(17, 16384, 0x830cu64),
        power_is(17, 32768, 0x2042u64),
        power_is(17, 65536, 0x204u64),
        power_is(17, 131072, 0x2u64),
{
    bit_facts();
    lemma_annihilated_17();
    lemma_power_one(17);
    lemma_power_mul(17, 0x20009u64, 1, 0x2u64, 1, 0x2u64, 0x0u64, 0x4u64);
    lemma_power_mul(17, 0x20009u64, 2, 0x4u64, 2, 0x4u64, 0x0u64, 0x10u64);
    lemma_power_mul(17, 0x20009u64, 4, 0x10u64, 4, 0x10u64, 0x0u64, 0x100u64);
    lemma_power_mul(17, 0x20009u64, 8, 0x100u64, 8, 0x100u64, 0x0u64, 0x10000u64);
    lemma_power_mul(17, 0x20009u64, 16, 0x10000u64, 16, 0x10000u64, 0x8002u64, 0x8012u64);
    lemma_power_mul(17, 0x20009u64, 32, 0x8012u64, 32, 0x8012u64, 0x2000u64, 0x12104u64);
    lemma_power_mul(17, 0x20009u64, 64, 0x12104u64, 64, 0x12104u64, 0x8202u64, 0x19202u64);
    lemma_power_mul(17, 0x20009u64, 128, 0x19202u64, 128, 0x19202u64, 0xa080u64, 0x1a484u64);
    lemma_power_mul(17, 0x20009u64, 256, 0x1a484u64, 256, 0x1a484u64, 0xa20au64, 0x1f24au64);
    lemma_power_mul(17, 0x20009u64, 512, 0x1f24au64, 512, 0x1f24au64, 0xaa80u64, 0x1eec4u64);
    lemma_power_mul(17, 0x20009u64, 1024, 0x1eec4u64, 1024, 0x1eec4u64, 0xaa28u64, 0x1ab78u64);
    lemma_power_mul(17, 0x20009u64, 2048, 0x1ab78u64, 2048, 0x1ab78u64, 0xa220u64, 0xa660u64);
    lemma_power_mul(17, 0x20009u64, 4096, 0xa660u64, 4096, 0xa660u64, 0x220au64, 0x1265au64);
    lemma_power_mul(17, 0x20009u64, 8192, 0x1265au64, 8192, 0x1265au64, 0x8208u64, 0x830cu64);
    lemma_power_mul(17, 0x20009u64, 16384, 0x830cu64, 16384, 0x830cu64, 0x2002u64, 0x2042u64);
    lemma_power_mul(17, 0x20009u64, 32768, 0x2042u64, 32768, 0x2042u64, 0x200u64, 0x204u64);
    lemma_power_mul(17, 0x20009u64, 65536, 0x204u64, 65536, 0x204u64, 0x2u64, 0x2u64);
}

/// One step does not take the state 1 of the register of 17 bits to itself.
proof fn lemma_moves_17_131071()
    ensures
        !is_period(17, 1, 1),
{
    bit_facts();
    lemma_annihilated_17();
    lemma_squares_17();
    lemma_power_moves(17, 0x20009u64, 1, 0x2u64, 0x1fff8u64, 0x1u64);
}

/// The state 1 of the register of 17 bits comes back after 131071 steps and
/// not before.
pub proof fn lemma_unit_period_17(k: nat)
    requires
        0 < k < 131071,
    ensures
        is_period(17, 1, 131071),
        !is_period(17, 1, k),
{
    lemma_squares_17();
    lemma_cycle_start(17, 1, 131072);
    lemma_moves_17_131071();
    lemma_prime_131071();
    let f0 = Seq::<nat>::empty();
    assert(product(f0) == 1);
    let f1 = f0.push(131071);
    lemma_product_push(f0, 131071);
    assert(product(f1) == 131071);
    let factors = f1;
    assert forall|j: int| 0 <= j < factors.len() implies !is_period(
        17,
        1,
        131071nat / #[trigger] factors[j],
    ) by {
        if j == 0 {
            assert(factors[0] == 131071);
            assert(131071nat / 131071nat == 1);
        }
    }
    lemma_mask_facts(17);
    lemma_exact_period(17, 1, 131071, factors, k);
}

} // verus!
