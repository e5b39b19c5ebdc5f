//! The register of 24 bits: the state 1 has period `2^24 - 1` exactly.

use crate::divisors::{lemma_product_push, product};
use crate::mls::{lemma_mask_facts, step};
use crate::mls_algebra::{act, clmul, iterate, lemma_step_is_step_bits, step_bits};
use crate::mls_orbit::{
    is_period, lemma_act_step, lemma_cycle_start, lemma_exact_period, lemma_power_moves,
    lemma_power_mul, lemma_power_one, power_is,
};
use crate::primes::{
    lemma_prime_13, lemma_prime_17, lemma_prime_241, lemma_prime_3, lemma_prime_5, lemma_prime_7,
};
use vstd::prelude::*;

verus! {

/// What bit arithmetic says of this register: the first steps from the state 1,
/// and products of polynomials modulo the characteristic polynomial.
proof fn bit_facts()
    by (bit_vector)
    ensures
        step_bits(24, 0x1u32) == 0x2u32,
        step_bits(24, 0x2u32) == 0x4u32,
        step_bits(24, 0x4u32) == 0x8u32,
        step_bits(24, 0x8u32) == 0x10u32,
        step_bits(24, 0x10u32) == 0x20u32,
        step_bits(24, 0x20u32) == 0x40u32,
        step_bits(24, 0x40u32) == 0x80u32,
        step_bits(24, 0x80u32) == 0x100u32,
        step_bits(24, 0x100u32) == 0x200u32,
        step_bits(24, 0x200u32) == 0x400u32,
        step_bits(24, 0x400u32) == 0x800u32,
        step_bits(24, 0x800u32) == 0x1000u32,
        step_bits(24, 0x1000u32) == 0x2000u32,
        step_bits(24, 0x2000u32) == 0x4000u32,
        step_bits(24, 0x4000u32) == 0x8000u32,
        step_bits(24, 0x8000u32) == 0x10000u32,
        step_bits(24, 0x10000u32) == 0x20001u32,
        step_bits(24, 0x20001u32) == 0x40002u32,
        step_bits(24, 0x40002u32) == 0x80004u32,
        step_bits(24, 0x80004u32) == 0x100008u32,
        step_bits(24, 0x100008u32) == 0x200010u32,
        step_bits(24, 0x200010u32) == 0x400021u32,
        step_bits(24, 0x400021u32) == 0x800043u32,
        step_bits(24, 0x800043u32) == 0x87u32,
        0x87u32 ^ 0x0u32 == 0x87u32,
        0x80u32 ^ 0x87u32 == 0x7u32,
        0x4u32 ^ 0x7u32 == 0x3u32,
        0x2u32 ^ 0x3u32 == 0x1u32,
        0x1u32 ^ 0x1u32 == 0x0u32,
        clmul(0x2u64, 0x2u64) == clmul(0x0u64, 0x1000087u64) ^ 0x4u64,
        clmul(0x4u64, 0x4u64) == clmul(0x0u64, 0x1000087u64) ^ 0x10u64,
        clmul(0x10u64, 0x10u64) == clmul(0x0u64, 0x1000087u64) ^ 0x100u64,
        clmul(0x100u64, 0x100u64) == clmul(0x0u64, 0x1000087u64) ^ 0x10000u64,
        clmul(0x10000u64, 0x10000u64) == clmul(0x100u64, 0x1000087u64) ^ 0x8700u64,
        clmul(0x8700u64, 0x8700u64) == clmul(0x40u64, 0x1000087u64) ^ 0x1521c0u64,
        clmul(0x1521c0u64, 0x1521c0u64) == clmul(0x11104u64, 0x1000087u64) ^ 0x8ea51cu64,
        clmul(0x8ea51cu64, 0x8ea51cu64) == clmul(0x405465u64, 0x1000087u64) ^ 0xfa9eebu64,
        clmul(0xfa9eebu64, 0xfa9eebu64) == clmul(0x55446au64, 0x1000087u64) ^ 0x5cbc53u64,
        clmul(0x5cbc53u64, 0x5cbc53u64) == clmul(0x11504du64, 0x1000087u64) ^ 0x8e8666u64,
        clmul(0x8e8666u64, 0x8e8666u64) == clmul(0x405461u64, 0x1000087u64) ^ 0xff89b3u64,
        clmul(0xff89b3u64, 0xff89b3u64) == clmul(0x55556bu64, 0x1000087u64) ^ 0x415a94u64,
        clmul(0x415a94u64, 0x415a94u64) == clmul(0x100119u64, 0x1000087u64) ^ 0x34cadfu64,
        clmul(0x34cadfu64, 0x34cadfu64) == clmul(0x51052u64, 0x1000087u64) ^ 0xd709ebu64,
        clmul(0xd709ebu64, 0xd709ebu64) == clmul(0x511529u64, 0x1000087u64) ^ 0x7cab1au64,
        clmul(0x7cab1au64, 0x7cab1au64) == clmul(0x15504eu64, 0x1000087u64) ^ 0x8797aeu64,
        clmul(0x8797aeu64, 0x8797aeu64) == clmul(0x401560u64, 0x1000087u64) ^ 0xdf9e74u64,
        clmul(0xdf9e74u64, 0xdf9e74u64) == clmul(0x515568u64, 0x1000087u64) ^ 0x480b08u64,
        clmul(0x480b08u64, 0x480b08u64) == clmul(0x104008u64, 0x1000087u64) ^ 0x14c478u64,
        clmul(0x14c478u64, 0x14c478u64) == clmul(0x11050u64, 0x1000087u64) ^ 0x9f4cf0u64,
        clmul(0x9f4cf0u64, 0x9f4cf0u64) == clmul(0x415531u64, 0x1000087u64) ^ 0x3c6617u64,
        clmul(0x3c6617u64, 0x3c6617u64) == clmul(0x55016u64, 0x1000087u64) ^ 0xa6ba77u64,
        clmul(0xa6ba77u64, 0xa6ba77u64) == clmul(0x441466u64, 0x1000087u64) ^ 0x924b27u64,
        clmul(0x924b27u64, 0x924b27u64) == clmul(0x410431u64, 0x1000087u64) ^ 0x2u64,
        clmul(0x2u64, 0x10u64) == clmul(0x0u64, 0x1000087u64) ^ 0x20u64,
        clmul(0x20u64, 0x10000u64) == clmul(0x0u64, 0x1000087u64) ^ 0x200000u64,
        clmul(0x200000u64, 0x1521c0u64) == clmul(0x2a439u64, 0x1000087u64) ^ 0x5f602fu64,
        clmul(0x5f602fu64, 0xfa9eebu64) == clmul(0x341e8fu64, 0x1000087u64) ^ 0x3f4c84u64,
        clmul(0x3f4c84u64, 0x8e8666u64) == clmul(0x1ec0afu64, 0x1000087u64) ^ 0x501655u64,
        clmul(0x501655u64, 0x415a94u64) == clmul(0x144681u64, 0x1000087u64) ^ 0x7f9583u64,
        clmul(0x7f9583u64, 0xd709ebu64) == clmul(0x26abadu64, 0x1000087u64) ^ 0xc51c7eu64,
        clmul(0xc51c7eu64, 0x8797aeu64) == clmul(0x60b9a1u64, 0x1000087u64) ^ 0x337cd3u64,
        clmul(0x337cd3u64, 0x480b08u64) == clmul(0xd451bu64, 0x1000087u64) ^ 0x205d59u64,
        clmul(0x205d59u64, 0x9f4cf0u64) == clmul(0x13c182u64, 0x1000087u64) ^ 0x32edfeu64,
        clmul(0x32edfeu64, 0xa6ba77u64) == clmul(0x1f98ddu64, 0x1000087u64) ^ 0x2916c9u64,
        clmul(0x2916c9u64, 0x2916c9u64 ^ 1) == clmul(0x44103u64, 0x1000087u64) ^ 1,
        clmul(0x2u64, 0x4u64) == clmul(0x0u64, 0x1000087u64) ^ 0x8u64,
        clmul(0x8u64, 0x10000u64) == clmul(0x0u64, 0x1000087u64) ^ 0x80000u64,
        clmul(0x80000u64, 0x8700u64) == clmul(0x438u64, 0x1000087u64) ^ 0x200a8u64,
        clmul(0x200a8u64, 0xfa9eebu64) == clmul(0x1f558u64, 0x1000087u64) ^ 0xe13930u64,
        clmul(0xe13930u64, 0x5cbc53u64) == clmul(0x32b6f9u64, 0x1000087u64) ^ 0xf8a83fu64,
        clmul(0xf8a83fu64, 0x415a94u64) == clmul(0x3ee55cu64, 0x1000087u64) ^ 0x949e18u64,
        clmul(0x949e18u64, 0x34cadfu64) == clmul(0x19e2d2u64, 0x1000087u64) ^ 0x707436u64,
        clmul(0x707436u64, 0x8797aeu64) == clmul(0x395513u64, 0x1000087u64) ^ 0x4c43du64,
        clmul(0x4c43du64, 0xdf9e74u64) == clmul(0x3253du64, 0x1000087u64) ^ 0xc288f7u64,
        clmul(0xc288f7u64, 0x9f4cf0u64) == clmul(0x6900c5u64, 0x1000087u64) ^ 0xd4130bu64,
        clmul(0xd4130bu64, 0x3c6617u64) == clmul(0x121efdu64, 0x1000087u64) ^ 0x71f5f2u64,
        clmul(0xa21f23u64, 0x71f5f2u64 ^ 1) == clmul(0x36227cu64, 0x1000087u64) ^ 1,
        clmul(0x2u64, 0x100u64) == clmul(0x0u64, 0x1000087u64) ^ 0x200u64,
        clmul(0x200u64, 0x1521c0u64) == clmul(0x2au64, 0x1000087u64) ^ 0x4395d6u64,
        clmul(0x4395d6u64, 0x5cbc53u64) == clmul(0x17e05du64, 0x1000087u64) ^ 0x725189u64,
        clmul(0x725189u64, 0x415a94u64) == clmul(0x1cfec5u64, 0x1000087u64) ^ 0x718aefu64,
        clmul(0x718aefu64, 0x7cab1au64) == clmul(0x1734d1u64, 0x1000087u64) ^ 0x7e23e1u64,
        clmul(0x7e23e1u64, 0x480b08u64) == clmul(0x1c7a99u64, 0x1000087u64) ^ 0xaa1d47u64,
        clmul(0xaa1d47u64, 0x3c6617u64) == clmul(0x1826deu64, 0x1000087u64) ^ 0xaeabbfu64,
        clmul(0xb2dbe0u64, 0xaeabbfu64 ^ 1) == clmul(0x49459bu64, 0x1000087u64) ^ 1,
        clmul(0x2u64, 0x4u64) == clmul(0x0u64, 0x1000087u64) ^ 0x8u64,
        clmul(0x8u64, 0x100u64) == clmul(0x0u64, 0x1000087u64) ^ 0x800u64,
        clmul(0x800u64, 0x10000u64) == clmul(0x8u64, 0x1000087u64) ^ 0x438u64,
        clmul(0x438u64, 0x8700u64) == clmul(0x2u64, 0x1000087u64) ^ 0xa90eu64,
        clmul(0xa90eu64, 0xfa9eebu64) == clmul(0x6537u64, 0x1000087u64) ^ 0x394227u64,
        clmul(0x394227u64, 0x415a94u64) == clmul(0xe65afu64, 0x1000087u64) ^ 0x1010a1u64,
        clmul(0x1010a1u64, 0x34cadfu64) == clmul(0x34ffcu64, 0x1000087u64) ^ 0x3a1f4bu64,
        clmul(0x3a1f4bu64, 0x7cab1au64) == clmul(0xb469du64, 0x1000087u64) ^ 0x65ca2du64,
        clmul(0x65ca2du64, 0x8797aeu64) == clmul(0x33e9c5u64, 0x1000087u64) ^ 0xc0527du64,
        clmul(0xc0527du64, 0xdf9e74u64) == clmul(0x58130fu64, 0x1000087u64) ^ 0x77f669u64,
        clmul(0x77f669u64, 0x9f4cf0u64) == clmul(0x3e638fu64, 0x1000087u64) ^ 0xba445du64,
        clmul(0x104256u64, 0xba445du64 ^ 1) == clmul(0xb8b83u64, 0x1000087u64) ^ 1,
        clmul(0x2u64, 0x4u64) == clmul(0x0u64, 0x1000087u64) ^ 0x8u64,
        clmul(0x8u64, 0x10u64) == clmul(0x0u64, 0x1000087u64) ^ 0x80u64,
        clmul(0x80u64, 0x100u64) == clmul(0x0u64, 0x1000087u64) ^ 0x8000u64,
        clmul(0x8000u64, 0xfa9eebu64) == clmul(0x7d4fu64, 0x1000087u64) ^ 0x4a556du64,
        clmul(0x4a556du64, 0x5cbc53u64) == clmul(0x156051u64, 0x1000087u64) ^ 0xcbd710u64,
        clmul(0xcbd710u64, 0x8e8666u64) == clmul(0x616a89u64, 0x1000087u64) ^ 0x3ee55fu64,
        clmul(0x3ee55fu64, 0xff89b3u64) == clmul(0x15a83cu64, 0x1000087u64) ^ 0xea1fc5u64,
        clmul(0xea1fc5u64, 0x8797aeu64) == clmul(0x77e0d2u64, 0x1000087u64) ^ 0x4de4a8u64,
        clmul(0x4de4a8u64, 0xdf9e74u64) == clmul(0x32fa47u64, 0x1000087u64) ^ 0x359375u64,
        clmul(0x359375u64, 0x480b08u64) == clmul(0xcc9b3u64, 0x1000087u64) ^ 0x280931u64,
        clmul(0x280931u64, 0x14c478u64) == clmul(0x23e1cu64, 0x1000087u64) ^ 0xf600acu64,
        clmul(0x417820u64, 0xf600acu64 ^ 1) == clmul(0x3d5dbbu64, 0x1000087u64) ^ 1,
        clmul(0x2u64, 0x4u64) == clmul(0x0u64, 0x1000087u64) ^ 0x8u64,
        clmul(0x8u64, 0x10u64) == clmul(0x0u64, 0x1000087u64) ^ 0x80u64,
        clmul(0x80u64, 0x100u64) == clmul(0x0u64, 0x1000087u64) ^ 0x8000u64,
        clmul(0x8000u64, 0x8700u64) == clmul(0x43u64, 0x1000087u64) ^ 0x802049u64,
        clmul(0x802049u64, 0x1521c0u64) == clmul(0xa9244u64, 0x1000087u64) ^ 0xb0821cu64,
        clmul(0xb0821cu64, 0x8ea51cu64) == clmul(0x5e2a13u64, 0x1000087u64) ^ 0xae0aa9u64,
        clmul(0xae0aa9u64, 0xfa9eebu64) == clmul(0x67d16fu64, 0x1000087u64) ^ 0xe5cedeu64,
        clmul(0xe5cedeu64, 0x5cbc53u64) == clmul(0x33f283u64, 0x1000087u64) ^ 0x9f3d0bu64,
        clmul(0x9f3d0bu64, 0x8e8666u64) == clmul(0x48692du64, 0x1000087u64) ^ 0x4e5ed9u64,
        clmul(0x4e5ed9u64, 0xff89b3u64) == clmul(0x3a2aa6u64, 0x1000087u64) ^ 0x13ae29u64,
        clmul(0x13ae29u64, 0x8797aeu64) == clmul(0x9a5c6u64, 0x1000087u64) ^ 0x5b114cu64,
        clmul(0x8efc2cu64, 0x5b114cu64 ^ 1) == clmul(0x2ebc7fu64, 0x1000087u64) ^ 1,
{
}

/// The characteristic polynomial of the register of 24 bits takes the state 1
/// to 0.
proof fn lemma_annihilated_24()
    ensures
        act(24, 0x1000087u64, 1) == 0,
{
    bit_facts();
    lemma_act_step(24, 0x1u64, 0x87u32, step(24, 0x87u32), 0);
    lemma_step_is_step_bits(24, 0x800043u32);
    lemma_act_step(24, 0x2u64, 0x800043u32, 0x87u32, 0x87u32);
    lemma_step_is_step_bits(24, 0x400021u32);
    lemma_act_step(24, 0x4u64, 0x400021u32, 0x800043u32, 0x87u32);
    lemma_step_is_step_bits(24, 0x200010u32);
    lemma_act_step(24, 0x8u64, 0x200010u32, 0x400021u32, 0x87u32);
    lemma_step_is_step_bits(24, 0x100008u32);
    lemma_act_step(24, 0x10u64, 0x100008u32, 0x200010u32, 0x87u32);
    lemma_step_is_step_bits(24, 0x80004u32);
    lemma_act_step(24, 0x20u64, 0x80004u32, 0x100008u32, 0x87u32);
    lemma_step_is_step_bits(24, 0x40002u32);
    lemma_act_step(24, 0x40u64, 0x40002u32, 0x80004u32, 0x87u32);
    lemma_step_is_step_bits(24, 0x20001u32);
    lemma_act_step(24, 0x80u64, 0x20001u32, 0x40002u32, 0x87u32);
    lemma_step_is_step_bits(24, 0x10000u32);
    lemma_act_step(24, 0x100u64, 0x10000u32, 0x20001u32, 0x87u32);
    lemma_step_is_step_bits(24, 0x8000u32);
    lemma_act_step(24, 0x200u64, 0x8000u32, 0x10000u32, 0x87u32);
    lemma_step_is_step_bits(24, 0x4000u32);
    lemma_act_step(24, 0x400u64, 0x4000u32, 0x8000u32, 0x87u32);
    lemma_step_is_step_bits(24, 0x2000u32);
    lemma_act_step(24, 0x800u64, 0x2000u32, 0x4000u32, 0x87u32);
    lemma_step_is_step_bits(24, 0x1000u32);
    lemma_act_step(24, 0x1000u64, 0x1000u32, 0x2000u32, 0x87u32);
    lemma_step_is_step_bits(24, 0x800u32);
    lemma_act_step(24, 0x2000u64, 0x800u32, 0x1000u32, 0x87u32);
    lemma_step_is_step_bits(24, 0x400u32);
    lemma_act_step(24, 0x4000u64, 0x400u32, 0x800u32, 0x87u32);
    lemma_step_is_step_bits(24, 0x200u32);
    lemma_act_step(24, 0x8000u64, 0x200u32, 0x400u32, 0x87u32);
    lemma_step_is_step_bits(24, 0x100u32);
    lemma_act_step(24, 0x10000u64, 0x100u32, 0x200u32, 0x87u32);
    lemma_step_is_step_bits(24, 0x80u32);
    lemma_act_step(24, 0x20001u64, 0x80u32, 0x100u32, 0x87u32);
    lemma_step_is_step_bits(24, 0x40u32);
    lemma_act_step(24, 0x40002u64, 0x40u32, 0x80u32, 0x7u32);
    lemma_step_is_step_bits(24, 0x20u32);
    lemma_act_step(24, 0x80004u64, 0x20u32, 0x40u32, 0x7u32);
    lemma_step_is_step_bits(24, 0x10u32);
    lemma_act_step(24, 0x100008u64, 0x10u32, 0x20u32, 0x7u32);
    lemma_step_is_step_bits(24, 0x8u32);
    lemma_act_step(24, 0x200010u64, 0x8u32, 0x10u32, 0x7u32);
    lemma_step_is_step_bits(24, 0x4u32);
    lemma_act_step(24, 0x400021u64, 0x4u32, 0x8u32, 0x7u32);
    lemma_step_is_step_bits(24, 0x2u32);
    lemma_act_step(24, 0x800043u64, 0x2u32, 0x4u32, 0x3u32);
    lemma_step_is_step_bits(24, 0x1u32);
    lemma_act_step(24, 0x1000087u64, 0x1u32, 0x2u32, 0x1u32);
}

/// The polynomials that stand for 1, 2, 4, ... steps of the register of 24
/// bits.
proof fn lemma_squares_24()
    ensures
        power_is(24, 1, 0x2u64),
        power_is(24, 2, 0x4u64),
        power_is(24, 4, 0x10u64),
        power_is(24, 8, 0x100u64),
        power_is(24, 16, 0x10000u64),
        power_is(24, 32, 0x8700u64),
        power_is(24, 64, 0x1521c0u64),
        power_is(24, 128, 0x8ea51cu64),
        power_is(24, 256, 0xfa9eebu64),
        power_is(24, 512, 0x5cbc53u64),
        power_is(24, 1024, 0x8e8666u64),
        power_is(24, 2048, 0xff89b3u64),
        power_is(24, 4096, 0x415a94u64),
        power_is(24, 8192, 0x34cadfu64),
        power_is(24, 16384, 0xd709ebu64),
        power_is(24, 32768, 0x7cab1au64),
        power_is(24, 65536, 0x8797aeu64),
        power_is(24, 131072, 0xdf9e74u64),
        power_is(24, 262144, 0x480b08u64),
        power_is(24, 524288, 0x14c478u64),
        power_is(24, 1048576, 0x9f4cf0u64),
        power_is(24, 2097152, 0x3c6617u64),
        power_is(24, 4194304, 0xa6ba77u64),
        power_is(24, 8388608, 0x924b27u64),
        power_is(24, 16777216, 0x2u64),
{
    bit_facts();
    lemma_annihilated_24();
    lemma_power_one(24);
    lemma_power_mul(24, 0x1000087u64, 1, 0x2u64, 1, 0x2u64, 0x0u64, 0x4u64);
    lemma_power_mul(24, 0x1000087u64, 2, 0x4u64, 2, 0x4u64, 0x0u64, 0x10u64);
    lemma_power_mul(24, 0x1000087u64, 4, 0x10u64, 4, 0x10u64, 0x0u64, 0x100u64);
    lemma_power_mul(24, 0x1000087u64, 8, 0x100u64, 8, 0x100u64, 0x0u64, 0x10000u64);
    lemma_power_mul(24, 0x1000087u64, 16, 0x10000u64, 16, 0x10000u64, 0x100u64, 0x8700u64);
    lemma_power_mul(24, 0x1000087u64, 32, 0x8700u64, 32, 0x8700u64, 0x40u64, 0x1521c0u64);
    lemma_power_mul(24, 0x1000087u64, 64, 0x1521c0u64, 64, 0x1521c0u64, 0x11104u64, 0x8ea51cu64);
    lemma_power_mul(24, 0x1000087u64, 128, 0x8ea51cu64, 128, 0x8ea51cu64, 0x405465u64, 0xfa9eebu64);
    lemma_power_mul(24, 0x1000087u64, 256, 0xfa9eebu64, 256, 0xfa9eebu64, 0x55446au64, 0x5cbc53u64);
    lemma_power_mul(24, 0x1000087u64, 512, 0x5cbc53u64, 512, 0x5cbc53u64, 0x11504du64, 0x8e8666u64);
    lemma_power_mul(24, 0x1000087u64, 1024, 0x8e8666u64, 1024, 0x8e8666u64, 0x405461u64, 0xff89b3u64);
    lemma_power_mul(24, 0x1000087u64, 2048, 0xff89b3u64, 2048, 0xff89b3u64, 0x55556bu64, 0x415a94u64);
    lemma_power_mul(24, 0x1000087u64, 4096, 0x415a94u64, 4096, 0x415a94u64, 0x100119u64, 0x34cadfu64);
    lemma_power_mul(24, 0x1000087u64, 8192, 0x34cadfu64, 8192, 0x34cadfu64, 0x51052u64, 0xd709ebu64);
    lemma_power_mul(24, 0x1000087u64, 16384, 0xd709ebu64, 16384, 0xd709ebu64, 0x511529u64, 0x7cab1au64);
    lemma_power_mul(24, 0x1000087u64, 32768, 0x7cab1au64, 32768, 0x7cab1au64, 0x15504eu64, 0x8797aeu64);
    lemma_power_mul(24, 0x1000087u64, 65536, 0x8797aeu64, 65536, 0x8797aeu64, 0x401560u64, 0xdf9e74u64);
    lemma_power_mul(24, 0x1000087u64, 131072, 0xdf9e74u64, 131072, 0xdf9e74u64, 0x515568u64, 0x480b08u64);
    lemma_power_mul(24, 0x1000087u64, 262144, 0x480b08u64, 262144, 0x480b08u64, 0x104008u64, 0x14c478u64);
    lemma_power_mul(24, 0x1000087u64, 524288, 0x14c478u64, 524288, 0x14c478u64, 0x11050u64, 0x9f4cf0u64);
    lemma_power_mul(24, 0x1000087u64, 1048576, 0x9f4cf0u64, 1048576, 0x9f4cf0u64, 0x415531u64, 0x3c6617u64);
    lemma_power_mul(24, 0x1000087u64, 2097152, 0x3c6617u64, 2097152, 0x3c6617u64, 0x55016u64, 0xa6ba77u64);
    lemma_power_mul(24, 0x1000087u64, 4194304, 0xa6ba77u64, 4194304, 0xa6ba77u64, 0x441466u64, 0x924b27u64);
    lemma_power_mul(24, 0x1000087u64, 8388608, 0x924b27u64, 8388608, 0x924b27u64, 0x410431u64, 0x2u64);
}

/// 5592405 steps do not take the state 1 of the register of 24 bits to
/// itself.
proof fn lemma_moves_24_3()
    ensures
        !is_period(24, 1, 5592405),
{
    bit_facts();
    lemma_annihilated_24();
    lemma_squares_24();
    lemma_power_mul(24, 0x1000087u64, 1, 0x2u64, 4, 0x10u64, 0x0u64, 0x20u64);
    lemma_power_mul(24, 0x1000087u64, 5, 0x20u64, 16, 0x10000u64, 0x0u64, 0x200000u64);
    lemma_power_mul(24, 0x1000087u64, 21, 0x200000u64, 64, 0x1521c0u64, 0x2a439u64, 0x5f602fu64);
    lemma_power_mul(24, 0x1000087u64, 85, 0x5f602fu64, 256, 0xfa9eebu64, 0x341e8fu64, 0x3f4c84u64);
    lemma_power_mul(24, 0x1000087u64, 341, 0x3f4c84u64, 1024, 0x8e8666u64, 0x1ec0afu64, 0x501655u64);
    lemma_power_mul(24, 0x1000087u64, 1365, 0x501655u64, 4096, 0x415a94u64, 0x144681u64, 0x7f9583u64);
    lemma_power_mul(24, 0x1000087u64, 5461, 0x7f9583u64, 16384, 0xd709ebu64, 0x26abadu64, 0xc51c7eu64);
    lemma_power_mul(24, 0x1000087u64, 21845, 0xc51c7eu64, 65536, 0x8797aeu64, 0x60b9a1u64, 0x337cd3u64);
    lemma_power_mul(24, 0x1000087u64, 87381, 0x337cd3u64, 262144, 0x480b08u64, 0xd451bu64, 0x205d59u64);
    lemma_power_mul(24, 0x1000087u64, 349525, 0x205d59u64, 1048576, 0x9f4cf0u64, 0x13c182u64, 0x32edfeu64);
    lemma_power_mul(24, 0x1000087u64, 1398101, 0x32edfeu64, 4194304, 0xa6ba77u64, 0x1f98ddu64, 0x2916c9u64);
    lemma_power_moves(24, 0x1000087u64, 5592405, 0x2916c9u64, 0x2916c9u64, 0x44103u64);
}

/// 3355443 steps do not take the state 1 of the register of 24 bits to
/// itself.
proof fn lemma_moves_24_5()
    ensures
        !is_period(24, 1, 3355443),
{
    bit_facts();
    lemma_annihilated_24();
    lemma_squares_24();
    lemma_power_mul(24, 0x1000087u64, 1, 0x2u64, 2, 0x4u64, 0x0u64, 0x8u64);
    lemma_power_mul(24, 0x1000087u64, 3, 0x8u64, 16, 0x10000u64, 0x0u64, 0x80000u64);
    lemma_power_mul(24, 0x1000087u64, 19, 0x80000u64, 32, 0x8700u64, 0x438u64, 0x200a8u64);
    lemma_power_mul(24, 0x1000087u64, 51, 0x200a8u64, 256, 0xfa9eebu64, 0x1f558u64, 0xe13930u64);
    lemma_power_mul(24, 0x1000087u64, 307, 0xe13930u64, 512, 0x5cbc53u64, 0x32b6f9u64, 0xf8a83fu64);
    lemma_power_mul(24, 0x1000087u64, 819, 0xf8a83fu64, 4096, 0x415a94u64, 0x3ee55cu64, 0x949e18u64);
    lemma_power_mul(24, 0x1000087u64, 4915, 0x949e18u64, 8192, 0x34cadfu64, 0x19e2d2u64, 0x707436u64);
    lemma_power_mul(24, 0x1000087u64, 13107, 0x707436u64, 65536, 0x8797aeu64, 0x395513u64, 0x4c43du64);
    lemma_power_mul(24, 0x1000087u64, 78643, 0x4c43du64, 131072, 0xdf9e74u64, 0x3253du64, 0xc288f7u64);
    lemma_power_mul(24, 0x1000087u64, 209715, 0xc288f7u64, 1048576, 0x9f4cf0u64, 0x6900c5u64, 0xd4130bu64);
    lemma_power_mul(24, 0x1000087u64, 1258291, 0xd4130bu64, 2097152, 0x3c6617u64, 0x121efdu64, 0x71f5f2u64);
    lemma_power_moves(24, 0x1000087u64, 3355443, 0x71f5f2u64, 0xa21f23u64, 0x36227cu64);
}

/// 2396745 steps do not take the state 1 of the register of 24 bits to
/// itself.
proof fn lemma_moves_24_7()
    ensures
        !is_period(24, 1, 2396745),
{
    bit_facts();
    lemma_annihilated_24();
    lemma_squares_24();
    lemma_power_mul(24, 0x1000087u64, 1, 0x2u64, 8, 0x100u64, 0x0u64, 0x200u64);
    lemma_power_mul(24, 0x1000087u64, 9, 0x200u64, 64, 0x1521c0u64, 0x2au64, 0x4395d6u64);
    lemma_power_mul(24, 0x1000087u64, 73, 0x4395d6u64, 512, 0x5cbc53u64, 0x17e05du64, 0x725189u64);
    lemma_power_mul(24, 0x1000087u64, 585, 0x725189u64, 4096, 0x415a94u64, 0x1cfec5u64, 0x718aefu64);
    lemma_power_mul(24, 0x1000087u64, 4681, 0x718aefu64, 32768, 0x7cab1au64, 0x1734d1u64, 0x7e23e1u64);
    lemma_power_mul(24, 0x1000087u64, 37449, 0x7e23e1u64, 262144, 0x480b08u64, 0x1c7a99u64, 0xaa1d47u64);
    lemma_power_mul(24, 0x1000087u64, 299593, 0xaa1d47u64, 2097152, 0x3c6617u64, 0x1826deu64, 0xaeabbfu64);
    lemma_power_moves(24, 0x1000087u64, 2396745, 0xaeabbfu64, 0xb2dbe0u64, 0x49459bu64);
}

/// 1290555 steps do not take the state 1 of the register of 24 bits to
/// itself.
proof fn lemma_moves_24_13()
    ensures
        !is_period(24, 1, 1290555),
{
    bit_facts();
    lemma_annihilated_24();
    lemma_squares_24();
    lemma_power_mul(24, 0x1000087u64, 1, 0x2u64, 2, 0x4u64, 0x0u64, 0x8u64);
    lemma_power_mul(24, 0x1000087u64, 3, 0x8u64, 8, 0x100u64, 0x0u64, 0x800u64);
    lemma_power_mul(24, 0x1000087u64, 11, 0x800u64, 16, 0x10000u64, 0x8u64, 0x438u64);
    lemma_power_mul(24, 0x1000087u64, 27, 0x438u64, 32, 0x8700u64, 0x2u64, 0xa90eu64);
    lemma_power_mul(24, 0x1000087u64, 59, 0xa90eu64, 256, 0xfa9eebu64, 0x6537u64, 0x394227u64);
    lemma_power_mul(24, 0x1000087u64, 315, 0x394227u64, 4096, 0x415a94u64, 0xe65afu64, 0x1010a1u64);
    lemma_power_mul(24, 0x1000087u64, 4411, 0x1010a1u64, 8192, 0x34cadfu64, 0x34ffcu64, 0x3a1f4bu64);
    lemma_power_mul(24, 0x1000087u64, 12603, 0x3a1f4bu64, 32768, 0x7cab1au64, 0xb469du64, 0x65ca2du64);
    lemma_power_mul(24, 0x1000087u64, 45371, 0x65ca2du64, 65536, 0x8797aeu64, 0x33e9c5u64, 0xc0527du64);
    lemma_power_mul(24, 0x1000087u64, 110907, 0xc0527du64, 131072, 0xdf9e74u64, 0x58130fu64, 0x77f669u64);
    lemma_power_mul(24, 0x1000087u64, 241979, 0x77f669u64, 1048576, 0x9f4cf0u64, 0x3e638fu64, 0xba445du64);
    lemma_power_moves(24, 0x1000087u64, 1290555, 0xba445du64, 0x104256u64, 0xb8b83u64);
}

/// 986895 steps do not take the state 1 of the register of 24 bits to
/// itself.
proof fn lemma_moves_24_17()
    ensures
        !is_period(24, 1, 986895),
{
    bit_facts();
    lemma_annihilated_24();
    lemma_squares_24();
    lemma_power_mul(24, 0x1000087u64, 1, 0x2u64, 2, 0x4u64, 0x0u64, 0x8u64);
    lemma_power_mul(24, 0x1000087u64, 3, 0x8u64, 4, 0x10u64, 0x0u64, 0x80u64);
    lemma_power_mul(24, 0x1000087u64, 7, 0x80u64, 8, 0x100u64, 0x0u64, 0x8000u64);
    lemma_power_mul(24, 0x1000087u64, 15, 0x8000u64, 256, 0xfa9eebu64, 0x7d4fu64, 0x4a556du64);
    lemma_power_mul(24, 0x1000087u64, 271, 0x4a556du64, 512, 0x5cbc53u64, 0x156051u64, 0xcbd710u64);
    lemma_power_mul(24, 0x1000087u64, 783, 0xcbd710u64, 1024, 0x8e8666u64, 0x616a89u64, 0x3ee55fu64);
    lemma_power_mul(24, 0x1000087u64, 1807, 0x3ee55fu64, 2048, 0xff89b3u64, 0x15a83cu64, 0xea1fc5u64);
    lemma_power_mul(24, 0x1000087u64, 3855, 0xea1fc5u64, 65536, 0x8797aeu64, 0x77e0d2u64, 0x4de4a8u64);
    lemma_power_mul(24, 0x1000087u64, 69391, 0x4de4a8u64, 131072, 0xdf9e74u64, 0x32fa47u64, 0x359375u64);
    lemma_power_mul(24, 0x1000087u64, 200463, 0x359375u64, 262144, 0x480b08u64, 0xcc9b3u64, 0x280931u64);
    lemma_power_mul(24, 0x1000087u64, 462607, 0x280931u64, 524288, 0x14c478u64, 0x23e1cu64, 0xf600acu64);
    lemma_power_moves(24, 0x1000087u64, 986895, 0xf600acu64, 0x417820u64, 0x3d5dbbu64);
}

/// 69615 steps do not take the state 1 of the register of 24 bits to
/// itself.
proof fn lemma_moves_24_241()
    ensures
        !is_period(24, 1, 69615),
{
    bit_facts();
    lemma_annihilated_24();
    lemma_squares_24();
    lemma_power_mul(24, 0x1000087u64, 1, 0x2u64, 2, 0x4u64, 0x0u64, 0x8u64);
    lemma_power_mul(24, 0x1000087u64, 3, 0x8u64, 4, 0x10u64, 0x0u64, 0x80u64);
    lemma_power_mul(24, 0x1000087u64, 7, 0x80u64, 8, 0x100u64, 0x0u64, 0x8000u64);
    lemma_power_mul(24, 0x1000087u64, 15, 0x8000u64, 32, 0x8700u64, 0x43u64, 0x802049u64);
    lemma_power_mul(24, 0x1000087u64, 47, 0x802049u64, 64, 0x1521c0u64, 0xa9244u64, 0xb0821cu64);
    lemma_power_mul(24, 0x1000087u64, 111, 0xb0821cu64, 128, 0x8ea51cu64, 0x5e2a13u64, 0xae0aa9u64);
    lemma_power_mul(24, 0x1000087u64, 239, 0xae0aa9u64, 256, 0xfa9eebu64, 0x67d16fu64, 0xe5cedeu64);
    lemma_power_mul(24, 0x1000087u64, 495, 0xe5cedeu64, 512, 0x5cbc53u64, 0x33f283u64, 0x9f3d0bu64);
    lemma_power_mul(24, 0x1000087u64, 1007, 0x9f3d0bu64, 1024, 0x8e8666u64, 0x48692du64, 0x4e5ed9u64);
    lemma_power_mul(24, 0x1000087u64, 2031, 0x4e5ed9u64, 2048, 0xff89b3u64, 0x3a2aa6u64, 0x13ae29u64);
    lemma_power_mul(24, 0x1000087u64, 4079, 0x13ae29u64, 65536, 0x8797aeu64, 0x9a5c6u64, 0x5b114cu64);
    lemma_power_moves(24, 0x1000087u64, 69615, 0x5b114cu64, 0x8efc2cu64, 0x2ebc7fu64);
}

/// The state 1 of the register of 24 bits comes back after 16777215 steps and
/// not before.
pub proof fn lemma_unit_period_24(k: nat)
    requires
        0 < k < 16777215,
    ensures
        is_period(24, 1, 16777215),
        !is_period(24, 1, k),
{
    lemma_squares_24();
    lemma_cycle_start(24, 1, 16777216);
    lemma_moves_24_3();
    lemma_prime_3();
    lemma_moves_24_5();
    lemma_prime_5();
    lemma_moves_24_7();
    lemma_prime_7();
    lemma_moves_24_13();
    lemma_prime_13();
    lemma_moves_24_17();
    lemma_prime_17();
    lemma_moves_24_241();
    lemma_prime_241();
    let f0 = Seq::<nat>::empty();
    assert(product(f0) == 1);
    let f1 = f0.push(3);
    lemma_product_push(f0, 3);
    assert(product(f1) == 3);
    let f2 = f1.push(3);
    lemma_product_push(f1, 3);
    assert(product(f2) == 9);
    let f3 = f2.push(5);
    lemma_product_push(f2, 5);
    assert(product(f3) == 45);
    let f4 = f3.push(7);
    lemma_product_push(f3, 7);
    assert(product(f4) == 315);
    let f5 = f4.push(13);
    lemma_product_push(f4, 13);
    assert(product(f5) == 4095);
    let f6 = f5.push(17);
    lemma_product_push(f5, 17);
    assert(product(f6) == 69615);
    let f7 = f6.push(241);
    lemma_product_push(f6, 241);
    assert(product(f7) == 16777215);
    let factors = f7;
    assert forall|j: int| 0 <= j < factors.len() implies !is_period(
        24,
        1,
        16777215nat / #[trigger] factors[j],
    ) by {
        if j == 0 {
            assert(factors[0] == 3);
            assert(16777215nat / 3nat == 5592405);
        }
        if j == 1 {
            assert(factors[1] == 3);
            assert(16777215nat / 3nat == 5592405);
        }
        if j == 2 {
            assert(factors[2] == 5);
            assert(16777215nat / 5nat == 3355443);
        }
        if j == 3 {
            assert(factors[3] == 7);
            assert(16777215nat / 7nat == 2396745);
        }
        if j == 4 {
            assert(factors[4] == 13);
            assert(16777215nat / 13nat == 1290555);
        }
        if j == 5 {
            assert(factors[5] == 17);
            assert(16777215nat / 17nat == 986895);
        }
        if j == 6 {
            assert(factors[6] == 241);
            assert(16777215nat / 241nat == 69615);
        }
    }
    lemma_mask_facts(24);
    lemma_exact_period(24, 1, 16777215, factors, k);
}

} // verus!
