//! The register of 28 bits: the state 1 has period `2^28 - 1` exactly.

use crate::divisors::{lemma_product_push, product};
use crate::mls::{lemma_mask_facts, step};
use crate::mls_algebra::{act, clmul, iterate, lemma_step_is_step_bits, step_bits};
use crate::mls_orbit::{
    is_period, lemma_act_step, lemma_cycle_start, lemma_exact_period, lemma_power_moves,
    lemma_power_mul, lemma_power_one, power_is,
};
use crate::primes::{
    lemma_prime_113, lemma_prime_127, lemma_prime_29, lemma_prime_3, lemma_prime_43, lemma_prime_5,
};
use vstd::prelude::*;

verus! {

/// What bit arithmetic says of this register: the first steps from the state 1,
/// and products of polynomials modulo the characteristic polynomial.
proof fn bit_facts()
    by (bit_vector)
    ensures
        step_bits(28, 0x1u32) == 0x2u32,
        step_bits(28, 0x2u32) == 0x4u32,
        step_bits(28, 0x4u32) == 0x8u32,
        step_bits(28, 0x8u32) == 0x10u32,
        step_bits(28, 0x10u32) == 0x20u32,
        step_bits(28, 0x20u32) == 0x40u32,
        step_bits(28, 0x40u32) == 0x80u32,
        step_bits(28, 0x80u32) == 0x100u32,
        step_bits(28, 0x100u32) == 0x200u32,
        step_bits(28, 0x200u32) == 0x400u32,
        step_bits(28, 0x400u32) == 0x800u32,
        step_bits(28, 0x800u32) == 0x1000u32,
        step_bits(28, 0x1000u32) == 0x2000u32,
        step_bits(28, 0x2000u32) == 0x4000u32,
        step_bits(28, 0x4000u32) == 0x8000u32,
        step_bits(28, 0x8000u32) == 0x10000u32,
        step_bits(28, 0x10000u32) == 0x20000u32,
        step_bits(28, 0x20000u32) == 0x40000u32,
        step_bits(28, 0x40000u32) == 0x80000u32,
        step_bits(28, 0x80000u32) == 0x100000u32,
        step_bits(28, 0x100000u32) == 0x200000u32,
        step_bits(28, 0x200000u32) == 0x400000u32,
        step_bits(28, 0x400000u32) == 0x800000u32,
        step_bits(28, 0x800000u32) == 0x1000000u32,
        step_bits(28, 0x1000000u32) == 0x2000001u32,
        step_bits(28, 0x2000001u32) == 0x4000002u32,
        step_bits(28, 0x4000002u32) == 0x8000004u32,
        step_bits(28, 0x8000004u32) == 0x9u32,
        0x9u32 ^ 0x0u32 == 0x9u32,
        0x8u32 ^ 0x9u32 == 0x1u32,
        0x1u32 ^ 0x1u32 == 0x0u32,
        clmul(0x2u64, 0x2u64) == clmul(0x0u64, 0x10000009u64) ^ 0x4u64,
        clmul(0x4u64, 0x4u64) == clmul(0x0u64, 0x10000009u64) ^ 0x10u64,
        clmul(0x10u64, 0x10u64) == clmul(0x0u64, 0x10000009u64) ^ 0x100u64,
        clmul(0x100u64, 0x100u64) == clmul(0x0u64, 0x10000009u64) ^ 0x10000u64,
        clmul(0x10000u64, 0x10000u64) == clmul(0x10u64, 0x10000009u64) ^ 0x90u64,
        clmul(0x90u64, 0x90u64) == clmul(0x0u64, 0x10000009u64) ^ 0x4100u64,
        clmul(0x4100u64, 0x4100u64) == clmul(0x1u64, 0x10000009u64) ^ 0x10009u64,
        clmul(0x10009u64, 0x10009u64) == clmul(0x10u64, 0x10000009u64) ^ 0xd1u64,
        clmul(0xd1u64, 0xd1u64) == clmul(0x0u64, 0x10000009u64) ^ 0x5101u64,
        clmul(0x5101u64, 0x5101u64) == clmul(0x1u64, 0x10000009u64) ^ 0x1010008u64,
        clmul(0x1010008u64, 0x1010008u64) == clmul(0x100010u64, 0x10000009u64) ^ 0x9000d0u64,
        clmul(0x9000d0u64, 0x9000d0u64) == clmul(0x41000u64, 0x10000009u64) ^ 0x24c100u64,
        clmul(0x24c100u64, 0x24c100u64) == clmul(0x4105u64, 0x10000009u64) ^ 0x3492du64,
        clmul(0x3492du64, 0x3492du64) == clmul(0x51u64, 0x10000009u64) ^ 0x410688u64,
        clmul(0x410688u64, 0x410688u64) == clmul(0x10010u64, 0x10000009u64) ^ 0x1d40d0u64,
        clmul(0x1d40d0u64, 0x1d40d0u64) == clmul(0x1511u64, 0x10000009u64) ^ 0xec99u64,
        clmul(0xec99u64, 0xec99u64) == clmul(0x5u64, 0x10000009u64) ^ 0x450416cu64,
        clmul(0x450416cu64, 0x450416cu64) == clmul(0x1011001u64, 0x10000009u64) ^ 0x9088459u64,
        clmul(0x9088459u64, 0x9088459u64) == clmul(0x4100406u64, 0x10000009u64) ^ 0x4803577u64,
        clmul(0x4803577u64, 0x4803577u64) == clmul(0x1040000u64, 0x10000009u64) ^ 0xc351515u64,
        clmul(0xc351515u64, 0xc351515u64) == clmul(0x5005112u64, 0x10000009u64) ^ 0xc13d893u64,
        clmul(0xc13d893u64, 0xc13d893u64) == clmul(0x5001057u64, 0x10000009u64) ^ 0xc40d3eau64,
        clmul(0xc40d3eau64, 0xc40d3eau64) == clmul(0x5010007u64, 0x10000009u64) ^ 0xc0c547bu64,
        clmul(0xc0c547bu64, 0xc0c547bu64) == clmul(0x5000503u64, 0x10000009u64) ^ 0xc10385eu64,
        clmul(0xc10385eu64, 0xc10385eu64) == clmul(0x5001002u64, 0x10000009u64) ^ 0x8408146u64,
        clmul(0x8408146u64, 0x8408146u64) == clmul(0x4010006u64, 0x10000009u64) ^ 0x4081022u64,
        clmul(0x4081022u64, 0x4081022u64) == clmul(0x1000400u64, 0x10000009u64) ^ 0x8002004u64,
        clmul(0x8002004u64, 0x8002004u64) == clmul(0x4000002u64, 0x10000009u64) ^ 0x2u64,
        clmul(0x2u64, 0x10u64) == clmul(0x0u64, 0x10000009u64) ^ 0x20u64,
        clmul(0x20u64, 0x10000u64) == clmul(0x0u64, 0x10000009u64) ^ 0x200000u64,
        clmul(0x200000u64, 0x4100u64) == clmul(0x82u64, 0x10000009u64) ^ 0x492u64,
        clmul(0x492u64, 0xd1u64) == clmul(0x0u64, 0x10000009u64) ^ 0x32032u64,
        clmul(0x32032u64, 0x1010008u64) == clmul(0x3231u64, 0x10000009u64) ^ 0x22aa229u64,
        clmul(0x22aa229u64, 0x24c100u64) == clmul(0x4c631u64, 0x10000009u64) ^ 0xe9a1eb9u64,
        clmul(0xe9a1eb9u64, 0x410688u64) == clmul(0x3a83ddu64, 0x10000009u64) ^ 0x48fa27du64,
        clmul(0x48fa27du64, 0xec99u64) == clmul(0x3c1au64, 0x10000009u64) ^ 0x1ac080fu64,
        clmul(0x1ac080fu64, 0x9088459u64) == clmul(0xcc1f8fu64, 0x10000009u64) ^ 0x8fd94b0u64,
        clmul(0x8fd94b0u64, 0xc351515u64) == clmul(0x65a1331u64, 0x10000009u64) ^ 0x9a577c9u64,
        clmul(0x9a577c9u64, 0xc40d3eau64) == clmul(0x69d1002u64, 0x10000009u64) ^ 0x3ee2528u64,
        clmul(0x3ee2528u64, 0xc10385eu64) == clmul(0x10f7033u64, 0x10000009u64) ^ 0xe54de9bu64,
        clmul(0xe54de9bu64, 0x4081022u64) == clmul(0x3921381u64, 0x10000009u64) ^ 0xc0151dfu64,
        clmul(0xc0151dfu64, 0xc0151dfu64 ^ 1) == clmul(0x5000013u64, 0x10000009u64) ^ 1,
        clmul(0x2u64, 0x4u64) == clmul(0x0u64, 0x10000009u64) ^ 0x8u64,
        clmul(0x8u64, 0x10000u64) == clmul(0x0u64, 0x10000009u64) ^ 0x80000u64,
        clmul(0x80000u64, 0x90u64) == clmul(0x0u64, 0x10000009u64) ^ 0x4800000u64,
        clmul(0x4800000u64, 0xd1u64) == clmul(0x32u64, 0x10000009u64) ^ 0xc8001a2u64,
        clmul(0xc8001a2u64, 0x5101u64) == clmul(0x3e48u64, 0x10000009u64) ^ 0xcf2cfaau64,
        clmul(0xcf2cfaau64, 0x24c100u64) == clmul(0x1a8dbeu64, 0x10000009u64) ^ 0xdd6ca4eu64,
        clmul(0xdd6ca4eu64, 0x3492du64) == clmul(0x156c6u64, 0x10000009u64) ^ 0x230a630u64,
        clmul(0x230a630u64, 0xec99u64) == clmul(0x1ca0u64, 0x10000009u64) ^ 0x1175510u64,
        clmul(0x1175510u64, 0x450416cu64) == clmul(0x409b0fu64, 0x10000009u64) ^ 0xe8d49b7u64,
        clmul(0xe8d49b7u64, 0xc351515u64) == clmul(0x4f52723u64, 0x10000009u64) ^ 0x53ff120u64,
        clmul(0x53ff120u64, 0xc13d893u64) == clmul(0x3d5f5a5u64, 0x10000009u64) ^ 0xb1ec9edu64,
        clmul(0xb1ec9edu64, 0xc10385eu64) == clmul(0x743d0cau64, 0x10000009u64) ^ 0x88f500cu64,
        clmul(0x88f500cu64, 0x8408146u64) == clmul(0x465d197u64, 0x10000009u64) ^ 0x3eab207u64,
        clmul(0x81085a8u64, 0x3eab207u64 ^ 1) == clmul(0x1f6ac39u64, 0x10000009u64) ^ 1,
        clmul(0x2u64, 0x4u64) == clmul(0x0u64, 0x10000009u64) ^ 0x8u64,
        clmul(0x8u64, 0x100u64) == clmul(0x0u64, 0x10000009u64) ^ 0x800u64,
        clmul(0x800u64, 0x4100u64) == clmul(0x0u64, 0x10000009u64) ^ 0x2080000u64,
        clmul(0x2080000u64, 0x10009u64) == clmul(0x2081u64, 0x10000009u64) ^ 0x2492489u64,
        clmul(0x2492489u64, 0xd1u64) == clmul(0x19u64, 0x10000009u64) ^ 0xa08u64,
        clmul(0xa08u64, 0x1010008u64) == clmul(0xa0u64, 0x10000009u64) ^ 0x20855e0u64,
        clmul(0x20855e0u64, 0x9000d0u64) == clmul(0x124ae0u64, 0x10000009u64) ^ 0x83acbe0u64,
        clmul(0x83acbe0u64, 0x24c100u64) == clmul(0x121a9bu64, 0x10000009u64) ^ 0xec12e43u64,
        clmul(0xec12e43u64, 0x3492du64) == clmul(0x108a6u64, 0x10000009u64) ^ 0xae9fba1u64,
        clmul(0xae9fba1u64, 0xec99u64) == clmul(0x6eadu64, 0x10000009u64) ^ 0x3b83bfcu64,
        clmul(0x3b83bfcu64, 0x9088459u64) == clmul(0x1e65f7fu64, 0x10000009u64) ^ 0xbd1f05bu64,
        clmul(0xbd1f05bu64, 0x4803577u64) == clmul(0x2aaed9eu64, 0x10000009u64) ^ 0x12aafffu64,
        clmul(0x12aafffu64, 0xc0c547bu64) == clmul(0xdf2631u64, 0x10000009u64) ^ 0xee3ab90u64,
        clmul(0x5e86e4fu64, 0xee3ab90u64 ^ 1) == clmul(0x300d64eu64, 0x10000009u64) ^ 1,
        clmul(0x2u64, 0x10u64) == clmul(0x0u64, 0x10000009u64) ^ 0x20u64,
        clmul(0x20u64, 0x100u64) == clmul(0x0u64, 0x10000009u64) ^ 0x2000u64,
        clmul(0x2000u64, 0x10000u64) == clmul(0x2u64, 0x10000009u64) ^ 0x12u64,
        clmul(0x12u64, 0x90u64) == clmul(0x0u64, 0x10000009u64) ^ 0x820u64,
        clmul(0x820u64, 0x4100u64) == clmul(0x0u64, 0x10000009u64) ^ 0x2002000u64,
        clmul(0x2002000u64, 0xd1u64) == clmul(0x1au64, 0x10000009u64) ^ 0x21a20cau64,
        clmul(0x21a20cau64, 0x410688u64) == clmul(0x849f5u64, 0x10000009u64) ^ 0x303d90du64,
        clmul(0x303d90du64, 0xec99u64) == clmul(0x134du64, 0x10000009u64) ^ 0xa84b210u64,
        clmul(0xa84b210u64, 0x450416cu64) == clmul(0x281907du64, 0x10000009u64) ^ 0x4369d55u64,
        clmul(0x4369d55u64, 0x9088459u64) == clmul(0x25a1c9fu64, 0x10000009u64) ^ 0x8b1db8au64,
        clmul(0x8b1db8au64, 0x4803577u64) == clmul(0x269e372u64, 0x10000009u64) ^ 0x61f9334u64,
        clmul(0x61f9334u64, 0xc351515u64) == clmul(0x283ec00u64, 0x10000009u64) ^ 0xbccc4a4u64,
        clmul(0xbccc4a4u64, 0xc40d3eau64) == clmul(0x73a1b54u64, 0x10000009u64) ^ 0x8a22e1cu64,
        clmul(0xd25cac8u64, 0x8a22e1cu64 ^ 1) == clmul(0x6e03a21u64, 0x10000009u64) ^ 1,
        clmul(0x2u64, 0x4u64) == clmul(0x0u64, 0x10000009u64) ^ 0x8u64,
        clmul(0x8u64, 0x10u64) == clmul(0x0u64, 0x10000009u64) ^ 0x80u64,
        clmul(0x80u64, 0x100u64) == clmul(0x0u64, 0x10000009u64) ^ 0x8000u64,
        clmul(0x8000u64, 0x90u64) == clmul(0x0u64, 0x10000009u64) ^ 0x480000u64,
        clmul(0x480000u64, 0x4100u64) == clmul(0x124u64, 0x10000009u64) ^ 0x8000804u64,
        clmul(0x8000804u64, 0xd1u64) == clmul(0x68u64, 0x10000009u64) ^ 0x806886cu64,
        clmul(0x806886cu64, 0x5101u64) == clmul(0x289cu64, 0x10000009u64) ^ 0x4124810u64,
        clmul(0x4124810u64, 0x1010008u64) == clmul(0x4165a7u64, 0x10000009u64) ^ 0xac8081fu64,
        clmul(0xac8081fu64, 0x9000d0u64) == clmul(0x5c883fu64, 0x10000009u64) ^ 0x64e4077u64,
        clmul(0x64e4077u64, 0x24c100u64) == clmul(0xd243fu64, 0x10000009u64) ^ 0x13e32c7u64,
        clmul(0x13e32c7u64, 0x3492du64) == clmul(0x3053u64, 0x10000009u64) ^ 0xfacbac8u64,
        clmul(0xfacbac8u64, 0x9088459u64) == clmul(0x72b3e2eu64, 0x10000009u64) ^ 0xc919d56u64,
        clmul(0xc919d56u64, 0xc13d893u64) == clmul(0x5613f31u64, 0x10000009u64) ^ 0xc564f23u64,
        clmul(0x417893u64, 0xc564f23u64 ^ 1) == clmul(0x31bfbfu64, 0x10000009u64) ^ 1,
        clmul(0x2u64, 0x10009u64) == clmul(0x0u64, 0x10000009u64) ^ 0x20012u64,
        clmul(0x20012u64, 0x410688u64) == clmul(0x820u64, 0x10000009u64) ^ 0x9822cb0u64,
        clmul(0x9822cb0u64, 0xc13d893u64) == clmul(0x6a9d022u64, 0x10000009u64) ^ 0x5f37e2u64,
        clmul(0x9100226u64, 0x5f37e2u64 ^ 1) == clmul(0x2a37b3u64, 0x10000009u64) ^ 1,
{
}

/// The characteristic polynomial of the register of 28 bits takes the state 1
/// to 0.
proof fn lemma_annihilated_28()
    ensures
        act(28, 0x10000009u64, 1) == 0,
{
    bit_facts();
    lemma_act_step(28, 0x1u64, 0x9u32, step(28, 0x9u32), 0);
    lemma_step_is_step_bits(28, 0x8000004u32);
    lemma_act_step(28, 0x2u64, 0x8000004u32, 0x9u32, 0x9u32);
    lemma_step_is_step_bits(28, 0x4000002u32);
    lemma_act_step(28, 0x4u64, 0x4000002u32, 0x8000004u32, 0x9u32);
    lemma_step_is_step_bits(28, 0x2000001u32);
    lemma_act_step(28, 0x8u64, 0x2000001u32, 0x4000002u32, 0x9u32);
    lemma_step_is_step_bits(28, 0x1000000u32);
    lemma_act_step(28, 0x10u64, 0x1000000u32, 0x2000001u32, 0x9u32);
    lemma_step_is_step_bits(28, 0x800000u32);
    lemma_act_step(28, 0x20u64, 0x800000u32, 0x1000000u32, 0x9u32);
    lemma_step_is_step_bits(28, 0x400000u32);
    lemma_act_step(28, 0x40u64, 0x400000u32, 0x800000u32, 0x9u32);
    lemma_step_is_step_bits(28, 0x200000u32);
    lemma_act_step(28, 0x80u64, 0x200000u32, 0x400000u32, 0x9u32);
    lemma_step_is_step_bits(28, 0x100000u32);
    lemma_act_step(28, 0x100u64, 0x100000u32, 0x200000u32, 0x9u32);
    lemma_step_is_step_bits(28, 0x80000u32);
    lemma_act_step(28, 0x200u64, 0x80000u32, 0x100000u32, 0x9u32);
    lemma_step_is_step_bits(28, 0x40000u32);
    lemma_act_step(28, 0x400u64, 0x40000u32, 0x80000u32, 0x9u32);
    lemma_step_is_step_bits(28, 0x20000u32);
    lemma_act_step(28, 0x800u64, 0x20000u32, 0x40000u32, 0x9u32);
    lemma_step_is_step_bits(28, 0x10000u32);
    lemma_act_step(28, 0x1000u64, 0x10000u32, 0x20000u32, 0x9u32);
    lemma_step_is_step_bits(28, 0x8000u32);
    lemma_act_step(28, 0x2000u64, 0x8000u32, 0x10000u32, 0x9u32);
    lemma_step_is_step_bits(28, 0x4000u32);
    lemma_act_step(28, 0x4000u64, 0x4000u32, 0x8000u32, 0x9u32);
    lemma_step_is_step_bits(28, 0x2000u32);
    lemma_act_step(28, 0x8000u64, 0x2000u32, 0x4000u32, 0x9u32);
    lemma_step_is_step_bits(28, 0x1000u32);
    lemma_act_step(28, 0x10000u64, 0x1000u32, 0x2000u32, 0x9u32);
    lemma_step_is_step_bits(28, 0x800u32);
    lemma_act_step(28, 0x20000u64, 0x800u32, 0x1000u32, 0x9u32);
    lemma_step_is_step_bits(28, 0x400u32);
    lemma_act_step(28, 0x40000u64, 0x400u32, 0x800u32, 0x9u32);
    lemma_step_is_step_bits(28, 0x200u32);
    lemma_act_step(28, 0x80000u64, 0x200u32, 0x400u32, 0x9u32);
    lemma_step_is_step_bits(28, 0x100u32);
    lemma_act_step(28, 0x100000u64, 0x100u32, 0x200u32, 0x9u32);
    lemma_step_is_step_bits(28, 0x80u32);
    lemma_act_step(28, 0x200000u64, 0x80u32, 0x100u32, 0x9u32);
    lemma_step_is_step_bits(28, 0x40u32);
    lemma_act_step(28, 0x400000u64, 0x40u32, 0x80u32, 0x9u32);
    lemma_step_is_step_bits(28, 0x20u32);
    lemma_act_step(28, 0x800000u64, 0x20u32, 0x40u32, 0x9u32);
    lemma_step_is_step_bits(28, 0x10u32);
    lemma_act_step(28, 0x1000000u64, 0x10u32, 0x20u32, 0x9u32);
    lemma_step_is_step_bits(28, 0x8u32);
    lemma_act_step(28, 0x2000001u64, 0x8u32, 0x10u32, 0x9u32);
    lemma_step_is_step_bits(28, 0x4u32);
    lemma_act_step(28, 0x4000002u64, 0x4u32, 0x8u32, 0x1u32);
    lemma_step_is_step_bits(28, 0x2u32);
    lemma_act_step(28, 0x8000004u64, 0x2u32, 0x4u32, 0x1u32);
    lemma_step_is_step_bits(28, 0x1u32);
    lemma_act_step(28, 0x10000009u64, 0x1u32, 0x2u32, 0x1u32);
}

/// The polynomials that stand for 1, 2, 4, ... steps of the register of 28
/// bits.
proof fn lemma_squares_28()
    ensures
        power_is(28, 1, 0x2u64),
        power_is(28, 2, 0x4u64),
        power_is(28, 4, 0x10u64),
        power_is(28, 8, 0x100u64),
        power_is(28, 16, 0x10000u64),
        power_is(28, 32, 0x90u64),
        power_is(28, 64, 0x4100u64),
        power_is(28, 128, 0x10009u64),
        power_is(28, 256, 0xd1u64),
        power_is(28, 512, 0x5101u64),
        power_is(28, 1024, 0x1010008u64),
        power_is(28, 2048, 0x9000d0u64),
        power_is(28, 4096, 0x24c100u64),
        power_is(28, 8192, 0x3492du64),
        power_is(28, 16384, 0x410688u64),
        power_is(28, 32768, 0x1d40d0u64),
        power_is(28, 65536, 0xec99u64),
        power_is(28, 131072, 0x450416cu64),
        power_is(28, 262144, 0x9088459u64),
        power_is(28, 524288, 0x4803577u64),
        power_is(28, 1048576, 0xc351515u64),
        power_is(28, 2097152, 0xc13d893u64),
        power_is(28, 4194304, 0xc40d3eau64),
        power_is(28, 8388608, 0xc0c547bu64),
        power_is(28, 16777216, 0xc10385eu64),
        power_is(28, 33554432, 0x8408146u64),
        power_is(28, 67108864, 0x4081022u64),
        power_is(28, 134217728, 0x8002004u64),
        power_is(28, 268435456, 0x2u64),
{
    bit_facts();
    lemma_annihilated_28();
    lemma_power_one(28);
    lemma_power_mul(28, 0x10000009u64, 1, 0x2u64, 1, 0x2u64, 0x0u64, 0x4u64);
    lemma_power_mul(28, 0x10000009u64, 2, 0x4u64, 2, 0x4u64, 0x0u64, 0x10u64);
    lemma_power_mul(28, 0x10000009u64, 4, 0x10u64, 4, 0x10u64, 0x0u64, 0x100u64);
    lemma_power_mul(28, 0x10000009u64, 8, 0x100u64, 8, 0x100u64, 0x0u64, 0x10000u64);
    lemma_power_mul(28, 0x10000009u64, 16, 0x10000u64, 16, 0x10000u64, 0x10u64, 0x90u64);
    lemma_power_mul(28, 0x10000009u64, 32, 0x90u64, 32, 0x90u64, 0x0u64, 0x4100u64);
    lemma_power_mul(28, 0x10000009u64, 64, 0x4100u64, 64, 0x4100u64, 0x1u64, 0x10009u64);
    lemma_power_mul(28, 0x10000009u64, 128, 0x10009u64, 128, 0x10009u64, 0x10u64, 0xd1u64);
    lemma_power_mul(28, 0x10000009u64, 256, 0xd1u64, 256, 0xd1u64, 0x0u64, 0x5101u64);
    lemma_power_mul(28, 0x10000009u64, 512, 0x5101u64, 512, 0x5101u64, 0x1u64, 0x1010008u64);
    lemma_power_mul(28, 0x10000009u64, 1024, 0x1010008u64, 1024, 0x1010008u64, 0x100010u64, 0x9000d0u64);
    lemma_power_mul(28, 0x10000009u64, 2048, 0x9000d0u64, 2048, 0x9000d0u64, 0x41000u64, 0x24c100u64);
    lemma_power_mul(28, 0x10000009u64, 4096, 0x24c100u64, 4096, 0x24c100u64, 0x4105u64, 0x3492du64);
    lemma_power_mul(28, 0x10000009u64, 8192, 0x3492du64, 8192, 0x3492du64, 0x51u64, 0x410688u64);
    lemma_power_mul(28, 0x10000009u64, 16384, 0x410688u64, 16384, 0x410688u64, 0x10010u64, 0x1d40d0u64);
    lemma_power_mul(28, 0x10000009u64, 32768, 0x1d40d0u64, 32768, 0x1d40d0u64, 0x1511u64, 0xec99u64);
    lemma_power_mul(28, 0x10000009u64, 65536, 0xec99u64, 65536, 0xec99u64, 0x5u64, 0x450416cu64);
    lemma_power_mul(28, 0x10000009u64, 131072, 0x450416cu64, 131072, 0x450416cu64, 0x1011001u64, 0x9088459u64);
    lemma_power_mul(28, 0x10000009u64, 262144, 0x9088459u64, 262144, 0x9088459u64, 0x4100406u64, 0x4803577u64);
    lemma_power_mul(28, 0x10000009u64, 524288, 0x4803577u64, 524288, 0x4803577u64, 0x1040000u64, 0xc351515u64);
    lemma_power_mul(28, 0x10000009u64, 1048576, 0xc351515u64, 1048576, 0xc351515u64, 0x5005112u64, 0xc13d893u64);
    lemma_power_mul(28, 0x10000009u64, 2097152, 0xc13d893u64, 2097152, 0xc13d893u64, 0x5001057u64, 0xc40d3eau64);
    lemma_power_mul(28, 0x10000009u64, 4194304, 0xc40d3eau64, 4194304, 0xc40d3eau64, 0x5010007u64, 0xc0c547bu64);
    lemma_power_mul(28, 0x10000009u64, 8388608, 0xc0c547bu64, 8388608, 0xc0c547bu64, 0x5000503u64, 0xc10385eu64);
    lemma_power_mul(28, 0x10000009u64, 16777216, 0xc10385eu64, 16777216, 0xc10385eu64, 0x5001002u64, 0x8408146u64);
    lemma_power_mul(28, 0x10000009u64, 33554432, 0x8408146u64, 33554432, 0x8408146u64, 0x4010006u64, 0x4081022u64);
    lemma_power_mul(28, 0x10000009u64, 67108864, 0x4081022u64, 67108864, 0x4081022u64, 0x1000400u64, 0x8002004u64);
    lemma_power_mul(28, 0x10000009u64, 134217728, 0x8002004u64, 134217728, 0x8002004u64, 0x4000002u64, 0x2u64);
}

/// 89478485 steps do not take the state 1 of the register of 28 bits to
/// itself.
proof fn lemma_moves_28_3()
    ensures
        !is_period(28, 1, 89478485),
{
    bit_facts();
    lemma_annihilated_28();
    lemma_squares_28();
    lemma_power_mul(28, 0x10000009u64, 1, 0x2u64, 4, 0x10u64, 0x0u64, 0x20u64);
    lemma_power_mul(28, 0x10000009u64, 5, 0x20u64, 16, 0x10000u64, 0x0u64, 0x200000u64);
    lemma_power_mul(28, 0x10000009u64, 21, 0x200000u64, 64, 0x4100u64, 0x82u64, 0x492u64);
    lemma_power_mul(28, 0x10000009u64, 85, 0x492u64, 256, 0xd1u64, 0x0u64, 0x32032u64);
    lemma_power_mul(28, 0x10000009u64, 341, 0x32032u64, 1024, 0x1010008u64, 0x3231u64, 0x22aa229u64);
    lemma_power_mul(28, 0x10000009u64, 1365, 0x22aa229u64, 4096, 0x24c100u64, 0x4c631u64, 0xe9a1eb9u64);
    lemma_power_mul(28, 0x10000009u64, 5461, 0xe9a1eb9u64, 16384, 0x410688u64, 0x3a83ddu64, 0x48fa27du64);
    lemma_power_mul(28, 0x10000009u64, 21845, 0x48fa27du64, 65536, 0xec99u64, 0x3c1au64, 0x1ac080fu64);
    lemma_power_mul(28, 0x10000009u64, 87381, 0x1ac080fu64, 262144, 0x9088459u64, 0xcc1f8fu64, 0x8fd94b0u64);
    lemma_power_mul(28, 0x10000009u64, 349525, 0x8fd94b0u64, 1048576, 0xc351515u64, 0x65a1331u64, 0x9a577c9u64);
    lemma_power_mul(28, 0x10000009u64, 1398101, 0x9a577c9u64, 4194304, 0xc40d3eau64, 0x69d1002u64, 0x3ee2528u64);
    lemma_power_mul(28, 0x10000009u64, 5592405, 0x3ee2528u64, 16777216, 0xc10385eu64, 0x10f7033u64, 0xe54de9bu64);
    lemma_power_mul(28, 0x10000009u64, 22369621, 0xe54de9bu64, 67108864, 0x4081022u64, 0x3921381u64, 0xc0151dfu64);
    lemma_power_moves(28, 0x10000009u64, 89478485, 0xc0151dfu64, 0xc0151dfu64, 0x5000013u64);
}

/// 53687091 steps do not take the state 1 of the register of 28 bits to
/// itself.
proof fn lemma_moves_28_5()
    ensures
        !is_period(28, 1, 53687091),
{
    bit_facts();
    lemma_annihilated_28();
    lemma_squares_28();
    lemma_power_mul(28, 0x10000009u64, 1, 0x2u64, 2, 0x4u64, 0x0u64, 0x8u64);
    lemma_power_mul(28, 0x10000009u64, 3, 0x8u64, 16, 0x10000u64, 0x0u64, 0x80000u64);
    lemma_power_mul(28, 0x10000009u64, 19, 0x80000u64, 32, 0x90u64, 0x0u64, 0x4800000u64);
    lemma_power_mul(28, 0x10000009u64, 51, 0x4800000u64, 256, 0xd1u64, 0x32u64, 0xc8001a2u64);
    lemma_power_mul(28, 0x10000009u64, 307, 0xc8001a2u64, 512, 0x5101u64, 0x3e48u64, 0xcf2cfaau64);
    lemma_power_mul(28, 0x10000009u64, 819, 0xcf2cfaau64, 4096, 0x24c100u64, 0x1a8dbeu64, 0xdd6ca4eu64);
    lemma_power_mul(28, 0x10000009u64, 4915, 0xdd6ca4eu64, 8192, 0x3492du64, 0x156c6u64, 0x230a630u64);
    lemma_power_mul(28, 0x10000009u64, 13107, 0x230a630u64, 65536, 0xec99u64, 0x1ca0u64, 0x1175510u64);
    lemma_power_mul(28, 0x10000009u64, 78643, 0x1175510u64, 131072, 0x450416cu64, 0x409b0fu64, 0xe8d49b7u64);
    lemma_power_mul(28, 0x10000009u64, 209715, 0xe8d49b7u64, 1048576, 0xc351515u64, 0x4f52723u64, 0x53ff120u64);
    lemma_power_mul(28, 0x10000009u64, 1258291, 0x53ff120u64, 2097152, 0xc13d893u64, 0x3d5f5a5u64, 0xb1ec9edu64);
    lemma_power_mul(28, 0x10000009u64, 3355443, 0xb1ec9edu64, 16777216, 0xc10385eu64, 0x743d0cau64, 0x88f500cu64);
    lemma_power_mul(28, 0x10000009u64, 20132659, 0x88f500cu64, 33554432, 0x8408146u64, 0x465d197u64, 0x3eab207u64);
    lemma_power_moves(28, 0x10000009u64, 53687091, 0x3eab207u64, 0x81085a8u64, 0x1f6ac39u64);
}

/// 9256395 steps do not take the state 1 of the register of 28 bits to
/// itself.
proof fn lemma_moves_28_29()
    ensures
        !is_period(28, 1, 9256395),
{
    bit_facts();
    lemma_annihilated_28();
    lemma_squares_28();
    lemma_power_mul(28, 0x10000009u64, 1, 0x2u64, 2, 0x4u64, 0x0u64, 0x8u64);
    lemma_power_mul(28, 0x10000009u64, 3, 0x8u64, 8, 0x100u64, 0x0u64, 0x800u64);
    lemma_power_mul(28, 0x10000009u64, 11, 0x800u64, 64, 0x4100u64, 0x0u64, 0x2080000u64);
    lemma_power_mul(28, 0x10000009u64, 75, 0x2080000u64, 128, 0x10009u64, 0x2081u64, 0x2492489u64);
    lemma_power_mul(28, 0x10000009u64, 203, 0x2492489u64, 256, 0xd1u64, 0x19u64, 0xa08u64);
    lemma_power_mul(28, 0x10000009u64, 459, 0xa08u64, 1024, 0x1010008u64, 0xa0u64, 0x20855e0u64);
    lemma_power_mul(28, 0x10000009u64, 1483, 0x20855e0u64, 2048, 0x9000d0u64, 0x124ae0u64, 0x83acbe0u64);
    lemma_power_mul(28, 0x10000009u64, 3531, 0x83acbe0u64, 4096, 0x24c100u64, 0x121a9bu64, 0xec12e43u64);
    lemma_power_mul(28, 0x10000009u64, 7627, 0xec12e43u64, 8192, 0x3492du64, 0x108a6u64, 0xae9fba1u64);
    lemma_power_mul(28, 0x10000009u64, 15819, 0xae9fba1u64, 65536, 0xec99u64, 0x6eadu64, 0x3b83bfcu64);
    lemma_power_mul(28, 0x10000009u64, 81355, 0x3b83bfcu64, 262144, 0x9088459u64, 0x1e65f7fu64, 0xbd1f05bu64);
    lemma_power_mul(28, 0x10000009u64, 343499, 0xbd1f05bu64, 524288, 0x4803577u64, 0x2aaed9eu64, 0x12aafffu64);
    lemma_power_mul(28, 0x10000009u64, 867787, 0x12aafffu64, 8388608, 0xc0c547bu64, 0xdf2631u64, 0xee3ab90u64);
    lemma_power_moves(28, 0x10000009u64, 9256395, 0xee3ab90u64, 0x5e86e4fu64, 0x300d64eu64);
}

/// 6242685 steps do not take the state 1 of the register of 28 bits to
/// itself.
proof fn lemma_moves_28_43()
    ensures
        !is_period(28, 1, 6242685),
{
    bit_facts();
    lemma_annihilated_28();
    lemma_squares_28();
    lemma_power_mul(28, 0x10000009u64, 1, 0x2u64, 4, 0x10u64, 0x0u64, 0x20u64);
    lemma_power_mul(28, 0x10000009u64, 5, 0x20u64, 8, 0x100u64, 0x0u64, 0x2000u64);
    lemma_power_mul(28, 0x10000009u64, 13, 0x2000u64, 16, 0x10000u64, 0x2u64, 0x12u64);
    lemma_power_mul(28, 0x10000009u64, 29, 0x12u64, 32, 0x90u64, 0x0u64, 0x820u64);
    lemma_power_mul(28, 0x10000009u64, 61, 0x820u64, 64, 0x4100u64, 0x0u64, 0x2002000u64);
    lemma_power_mul(28, 0x10000009u64, 125, 0x2002000u64, 256, 0xd1u64, 0x1au64, 0x21a20cau64);
    lemma_power_mul(28, 0x10000009u64, 381, 0x21a20cau64, 16384, 0x410688u64, 0x849f5u64, 0x303d90du64);
    lemma_power_mul(28, 0x10000009u64, 16765, 0x303d90du64, 65536, 0xec99u64, 0x134du64, 0xa84b210u64);
    lemma_power_mul(28, 0x10000009u64, 82301, 0xa84b210u64, 131072, 0x450416cu64, 0x281907du64, 0x4369d55u64);
    lemma_power_mul(28, 0x10000009u64, 213373, 0x4369d55u64, 262144, 0x9088459u64, 0x25a1c9fu64, 0x8b1db8au64);
    lemma_power_mul(28, 0x10000009u64, 475517, 0x8b1db8au64, 524288, 0x4803577u64, 0x269e372u64, 0x61f9334u64);
    lemma_power_mul(28, 0x10000009u64, 999805, 0x61f9334u64, 1048576, 0xc351515u64, 0x283ec00u64, 0xbccc4a4u64);
    lemma_power_mul(28, 0x10000009u64, 2048381, 0xbccc4a4u64, 4194304, 0xc40d3eau64, 0x73a1b54u64, 0x8a22e1cu64);
    lemma_power_moves(28, 0x10000009u64, 6242685, 0x8a22e1cu64, 0xd25cac8u64, 0x6e03a21u64);
}

/// 2375535 steps do not take the state 1 of the register of 28 bits to
/// itself.
proof fn lemma_moves_28_113()
    ensures
        !is_period(28, 1, 2375535),
{
    bit_facts();
    lemma_annihilated_28();
    lemma_squares_28();
    lemma_power_mul(28, 0x10000009u64, 1, 0x2u64, 2, 0x4u64, 0x0u64, 0x8u64);
    lemma_power_mul(28, 0x10000009u64, 3, 0x8u64, 4, 0x10u64, 0x0u64, 0x80u64);
    lemma_power_mul(28, 0x10000009u64, 7, 0x80u64, 8, 0x100u64, 0x0u64, 0x8000u64);
    lemma_power_mul(28, 0x10000009u64, 15, 0x8000u64, 32, 0x90u64, 0x0u64, 0x480000u64);
    lemma_power_mul(28, 0x10000009u64, 47, 0x480000u64, 64, 0x4100u64, 0x124u64, 0x8000804u64);
    lemma_power_mul(28, 0x10000009u64, 111, 0x8000804u64, 256, 0xd1u64, 0x68u64, 0x806886cu64);
    lemma_power_mul(28, 0x10000009u64, 367, 0x806886cu64, 512, 0x5101u64, 0x289cu64, 0x4124810u64);
    lemma_power_mul(28, 0x10000009u64, 879, 0x4124810u64, 1024, 0x1010008u64, 0x4165a7u64, 0xac8081fu64);
    lemma_power_mul(28, 0x10000009u64, 1903, 0xac8081fu64, 2048, 0x9000d0u64, 0x5c883fu64, 0x64e4077u64);
    lemma_power_mul(28, 0x10000009u64, 3951, 0x64e4077u64, 4096, 0x24c100u64, 0xd243fu64, 0x13e32c7u64);
    lemma_power_mul(28, 0x10000009u64, 8047, 0x13e32c7u64, 8192, 0x3492du64, 0x3053u64, 0xfacbac8u64);
    lemma_power_mul(28, 0x10000009u64, 16239, 0xfacbac8u64, 262144, 0x9088459u64, 0x72b3e2eu64, 0xc919d56u64);
    lemma_power_mul(28, 0x10000009u64, 278383, 0xc919d56u64, 2097152, 0xc13d893u64, 0x5613f31u64, 0xc564f23u64);
    lemma_power_moves(28, 0x10000009u64, 2375535, 0xc564f23u64, 0x417893u64, 0x31bfbfu64);
}

/// 2113665 steps do not take the state 1 of the register of 28 bits to
/// itself.
proof fn lemma_moves_28_127()
    ensures
        !is_period(28, 1, 2113665),
{
    bit_facts();
    lemma_annihilated_28();
    lemma_squares_28();
    lemma_power_mul(28, 0x10000009u64, 1, 0x2u64, 128, 0x10009u64, 0x0u64, 0x20012u64);
    lemma_power_mul(28, 0x10000009u64, 129, 0x20012u64, 16384, 0x410688u64, 0x820u64, 0x9822cb0u64);
    lemma_power_mul(28, 0x10000009u64, 16513, 0x9822cb0u64, 2097152, 0xc13d893u64, 0x6a9d022u64, 0x5f37e2u64);
    lemma_power_moves(28, 0x10000009u64, 2113665, 0x5f37e2u64, 0x9100226u64, 0x2a37b3u64);
}

/// The state 1 of the register of 28 bits comes back after 268435455 steps and
/// not before.
pub proof fn lemma_unit_period_28(k: nat)
    requires
        0 < k < 268435455,
    ensures
        is_period(28, 1, 268435455),
        !is_period(28, 1, k),
{
    lemma_squares_28();
    lemma_cycle_start(28, 1, 268435456);
    lemma_moves_28_3();
    lemma_prime_3();
    lemma_moves_28_5();
    lemma_prime_5();
    lemma_moves_28_29();
    lemma_prime_29();
    lemma_moves_28_43();
    lemma_prime_43();
    lemma_moves_28_113();
    lemma_prime_113();
    lemma_moves_28_127();
    lemma_prime_127();
    let f0 = Seq::<nat>::empty();
    assert(product(f0) == 1);
    let f1 = f0.push(3);
    lemma_product_push(f0, 3);
    assert(product(f1) == 3);
    let f2 = f1.push(5);
    lemma_product_push(f1, 5);
    assert(product(f2) == 15);
    let f3 = f2.push(29);
    lemma_product_push(f2, 29);
    assert(product(f3) == 435);
    let f4 = f3.push(43);
    lemma_product_push(f3, 43);
    assert(product(f4) == 18705);
    let f5 = f4.push(113);
    lemma_product_push(f4, 113);
    assert(product(f5) == 2113665);
    let f6 = f5.push(127);
    lemma_product_push(f5, 127);
    assert(product(f6) == 268435455);
    let factors = f6;
    assert forall|j: int| 0 <= j < factors.len() implies !is_period(
        28,
        1,
        268435455nat / #[trigger] factors[j],
    ) by {
        if j == 0 {
            assert(factors[0] == 3);
            assert(268435455nat / 3nat == 89478485);
        }
        if j == 1 {
            assert(factors[1] == 5);
            assert(268435455nat / 5nat == 53687091);
        }
        if j == 2 {
            assert(factors[2] == 29);
            assert(268435455nat / 29nat == 9256395);
        }
        if j == 3 {
            assert(factors[3] == 43);
            assert(268435455nat / 43nat == 6242685);
        }
        if j == 4 {
            assert(factors[4] == 113);
            assert(268435455nat / 113nat == 2375535);
        }
        if j == 5 {
            assert(factors[5] == 127);
            assert(268435455nat / 127nat == 2113665);
        }
    }
    lemma_mask_facts(28);
    lemma_exact_period(28, 1, 268435455, factors, k);
}

} // verus!
