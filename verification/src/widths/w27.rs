//! The register of 27 bits: the state 1 has period `2^27 - 1` exactly.

use crate::divisors::{lemma_product_push, product};
use crate::mls::{lemma_mask_facts, step};
use crate::mls_algebra::{act, clmul, iterate, lemma_step_is_step_bits, step_bits};
use crate::mls_orbit::{
    is_period, lemma_act_step, lemma_cycle_start, lemma_exact_period, lemma_power_moves,
    lemma_power_mul, lemma_power_one, power_is,
};
use crate::primes::{lemma_prime_262657, lemma_prime_7, lemma_prime_73};
use vstd::prelude::*;

verus! {

/// What bit arithmetic says of this register: the first steps from the state 1,
/// and products of polynomials modulo the characteristic polynomial.
proof fn bit_facts()
    by (bit_vector)
    ensures
        step_bits(27, 0x1u32) == 0x3u32,
        step_bits(27, 0x3u32) == 0x6u32,
        step_bits(27, 0x6u32) == 0xdu32,
        step_bits(27, 0xdu32) == 0x1bu32,
        step_bits(27, 0x1bu32) == 0x37u32,
        step_bits(27, 0x37u32) == 0x6fu32,
        step_bits(27, 0x6fu32) == 0xdeu32,
        step_bits(27, 0xdeu32) == 0x1bcu32,
        step_bits(27, 0x1bcu32) == 0x379u32,
        step_bits(27, 0x379u32) == 0x6f2u32,
        step_bits(27, 0x6f2u32) == 0xde4u32,
        step_bits(27, 0xde4u32) == 0x1bc8u32,
        step_bits(27, 0x1bc8u32) == 0x3790u32,
        step_bits(27, 0x3790u32) == 0x6f21u32,
        step_bits(27, 0x6f21u32) == 0xde43u32,
        step_bits(27, 0xde43u32) == 0x1bc86u32,
        step_bits(27, 0x1bc86u32) == 0x3790du32,
        step_bits(27, 0x3790du32) == 0x6f21bu32,
        step_bits(27, 0x6f21bu32) == 0xde437u32,
        step_bits(27, 0xde437u32) == 0x1bc86fu32,
        step_bits(27, 0x1bc86fu32) == 0x3790deu32,
        step_bits(27, 0x3790deu32) == 0x6f21bcu32,
        step_bits(27, 0x6f21bcu32) == 0xde4379u32,
        step_bits(27, 0xde4379u32) == 0x1bc86f2u32,
        step_bits(27, 0x1bc86f2u32) == 0x3790de4u32,
        step_bits(27, 0x3790de4u32) == 0x6f21bc8u32,
        step_bits(27, 0x6f21bc8u32) == 0x5e43791u32,
        0x5e43791u32 ^ 0x0u32 == 0x5e43791u32,
        0x6f21bc8u32 ^ 0x5e43791u32 == 0x3162c59u32,
        0x3790de4u32 ^ 0x3162c59u32 == 0x6f21bdu32,
        0x6f21bcu32 ^ 0x6f21bdu32 == 0x1u32,
        0x1u32 ^ 0x1u32 == 0x0u32,
        clmul(0x2u64, 0x2u64) == clmul(0x0u64, 0xe400001u64) ^ 0x4u64,
        clmul(0x4u64, 0x4u64) == clmul(0x0u64, 0xe400001u64) ^ 0x10u64,
        clmul(0x10u64, 0x10u64) == clmul(0x0u64, 0xe400001u64) ^ 0x100u64,
        clmul(0x100u64, 0x100u64) == clmul(0x0u64, 0xe400001u64) ^ 0x10000u64,
        clmul(0x10000u64, 0x10000u64) == clmul(0x37u64, 0xe400001u64) ^ 0x7c00037u64,
        clmul(0x7c00037u64, 0x7c00037u64) == clmul(0x39e4379u64, 0xe400001u64) ^ 0x3de466cu64,
        clmul(0x3de466cu64, 0x3de466cu64) == clmul(0xe7774du64, 0xe400001u64) ^ 0x5b3631du64,
        clmul(0x5b3631du64, 0x5b3631du64) == clmul(0x3439034u64, 0xe400001u64) ^ 0x2469165u64,
        clmul(0x2469165u64, 0x2469165u64) == clmul(0xdd39deu64, 0xe400001u64) ^ 0x25c2dcfu64,
        clmul(0x25c2dcfu64, 0x25c2dcfu64) == clmul(0xdd0379u64, 0xe400001u64) ^ 0x4cc532cu64,
        clmul(0x4cc532cu64, 0x4cc532cu64) == clmul(0x3779e40u64, 0xe400001u64) ^ 0x2729a10u64,
        clmul(0x2729a10u64, 0x2729a10u64) == clmul(0xddd374u64, 0xe400001u64) ^ 0x499d274u64,
        clmul(0x499d274u64, 0x499d274u64) == clmul(0x374d39eu64, 0xe400001u64) ^ 0x1f0c68eu64,
        clmul(0x1f0c68eu64, 0x1f0c68eu64) == clmul(0x39e439u64, 0xe400001u64) ^ 0x6da46du64,
        clmul(0x6da46du64, 0x6da46du64) == clmul(0x3a9e9u64, 0xe400001u64) ^ 0x53bdb8u64,
        clmul(0x53bdb8u64, 0x53bdb8u64) == clmul(0x34e79u64, 0xe400001u64) ^ 0x5120b39u64,
        clmul(0x5120b39u64, 0x5120b39u64) == clmul(0x34eaa74u64, 0xe400001u64) ^ 0x60baf35u64,
        clmul(0x60baf35u64, 0x60baf35u64) == clmul(0x3a7439du64, 0xe400001u64) ^ 0x6b2468cu64,
        clmul(0x6b2468cu64, 0x6b2468cu64) == clmul(0x3aa43a4u64, 0xe400001u64) ^ 0x2be03f4u64,
        clmul(0x2be03f4u64, 0x2be03f4u64) == clmul(0xd340deu64, 0xe400001u64) ^ 0x35615ceu64,
        clmul(0x35615ceu64, 0x35615ceu64) == clmul(0xea9e9du64, 0xe400001u64) ^ 0xbbcec9u64,
        clmul(0xbbcec9u64, 0xbbcec9u64) == clmul(0xd00e7u64, 0xe400001u64) ^ 0x39950a6u64,
        clmul(0x39950a6u64, 0x39950a6u64) == clmul(0xe40dd0u64, 0xe400001u64) ^ 0x5e449c4u64,
        clmul(0x5e449c4u64, 0x5e449c4u64) == clmul(0x340dd39u64, 0xe400001u64) ^ 0x3418d29u64,
        clmul(0x3418d29u64, 0x3418d29u64) == clmul(0xeaaa90u64, 0xe400001u64) ^ 0x4bbaed1u64,
        clmul(0x4bbaed1u64, 0x4bbaed1u64) == clmul(0x3740d00u64, 0xe400001u64) ^ 0x7205c01u64,
        clmul(0x7205c01u64, 0x7205c01u64) == clmul(0x3900003u64, 0xe400001u64) ^ 0x2u64,
        clmul(0x2u64, 0x100u64) == clmul(0x0u64, 0xe400001u64) ^ 0x200u64,
        clmul(0x200u64, 0x3de466cu64) == clmul(0x99u64, 0xe400001u64) ^ 0x4ccd899u64,
        clmul(0x4ccd899u64, 0x25c2dcfu64) == clmul(0x1a99585u64, 0xe400001u64) ^ 0x2a22542u64,
        clmul(0x2a22542u64, 0x499d274u64) == clmul(0x1f41639u64, 0xe400001u64) ^ 0x24e0bd1u64,
        clmul(0x24e0bd1u64, 0x53bdb8u64) == clmul(0x1e53cfu64, 0xe400001u64) ^ 0x6fc8ff7u64,
        clmul(0x6fc8ff7u64, 0x6b2468cu64) == clmul(0x3877352u64, 0xe400001u64) ^ 0x6753ab6u64,
        clmul(0x6753ab6u64, 0xbbcec9u64) == clmul(0x4423b6u64, 0xe400001u64) ^ 0x3bdbe30u64,
        clmul(0x3bdbe30u64, 0x3418d29u64) == clmul(0xd94105u64, 0xe400001u64) ^ 0x5e1b8b5u64,
        clmul(0x3a123ddu64, 0x5e1b8b5u64 ^ 1) == clmul(0x1683f85u64, 0xe400001u64) ^ 1,
        clmul(0x2u64, 0x4u64) == clmul(0x0u64, 0xe400001u64) ^ 0x8u64,
        clmul(0x8u64, 0x10u64) == clmul(0x0u64, 0xe400001u64) ^ 0x80u64,
        clmul(0x80u64, 0x25c2dcfu64) == clmul(0x30u64, 0xe400001u64) ^ 0x216e7b0u64,
        clmul(0x216e7b0u64, 0x4cc532cu64) == clmul(0x19c6d9bu64, 0xe400001u64) ^ 0x493e8dbu64,
        clmul(0x493e8dbu64, 0x2729a10u64) == clmul(0x1a9807du64, 0xe400001u64) ^ 0x40653cdu64,
        clmul(0x40653cdu64, 0x6b2468cu64) == clmul(0x2becc6du64, 0xe400001u64) ^ 0x78d15b1u64,
        clmul(0x78d15b1u64, 0x2be03f4u64) == clmul(0x16b0f8du64, 0xe400001u64) ^ 0x603d3b9u64,
        clmul(0x603d3b9u64, 0x35615ceu64) == clmul(0x1f78772u64, 0xe400001u64) ^ 0x29c0cecu64,
        clmul(0x11c63f6u64, 0x29c0cecu64 ^ 1) == clmul(0x73e3dfu64, 0xe400001u64) ^ 1,
        clmul(0x2u64, 0x4u64) == clmul(0x0u64, 0xe400001u64) ^ 0x8u64,
        clmul(0x8u64, 0x10u64) == clmul(0x0u64, 0xe400001u64) ^ 0x80u64,
        clmul(0x80u64, 0x100u64) == clmul(0x0u64, 0xe400001u64) ^ 0x8000u64,
        clmul(0x8000u64, 0x10000u64) == clmul(0x1bu64, 0xe400001u64) ^ 0x4c0001bu64,
        clmul(0x4c0001bu64, 0x7c00037u64) == clmul(0x22f21a7u64, 0xe400001u64) ^ 0x1ef2336u64,
        clmul(0x1ef2336u64, 0x3de466cu64) == clmul(0x73bba6u64, 0xe400001u64) ^ 0x5f9b18eu64,
        clmul(0x5f9b18eu64, 0x5b3631du64) == clmul(0x3787994u64, 0xe400001u64) ^ 0x60348b2u64,
        clmul(0x60348b2u64, 0x2469165u64) == clmul(0x14dd45du64, 0xe400001u64) ^ 0x60e16e7u64,
        clmul(0x45a5bfcu64, 0x60e16e7u64 ^ 1) == clmul(0x2e26e89u64, 0xe400001u64) ^ 1,
{
}

/// The characteristic polynomial of the register of 27 bits takes the state 1
/// to 0.
proof fn lemma_annihilated_27()
    ensures
        act(27, 0xe400001u64, 1) == 0,
{
    bit_facts();
    lemma_act_step(27, 0x1u64, 0x5e43791u32, step(27, 0x5e43791u32), 0);
    lemma_step_is_step_bits(27, 0x6f21bc8u32);
    lemma_act_step(27, 0x3u64, 0x6f21bc8u32, 0x5e43791u32, 0x5e43791u32);
    lemma_step_is_step_bits(27, 0x3790de4u32);
    lemma_act_step(27, 0x7u64, 0x3790de4u32, 0x6f21bc8u32, 0x3162c59u32);
    lemma_step_is_step_bits(27, 0x1bc86f2u32);
    lemma_act_step(27, 0xeu64, 0x1bc86f2u32, 0x3790de4u32, 0x6f21bdu32);
    lemma_step_is_step_bits(27, 0xde4379u32);
    lemma_act_step(27, 0x1cu64, 0xde4379u32, 0x1bc86f2u32, 0x6f21bdu32);
    lemma_step_is_step_bits(27, 0x6f21bcu32);
    lemma_act_step(27, 0x39u64, 0x6f21bcu32, 0xde4379u32, 0x6f21bdu32);
    lemma_step_is_step_bits(27, 0x3790deu32);
    lemma_act_step(27, 0x72u64, 0x3790deu32, 0x6f21bcu32, 0x1u32);
    lemma_step_is_step_bits(27, 0x1bc86fu32);
    lemma_act_step(27, 0xe4u64, 0x1bc86fu32, 0x3790deu32, 0x1u32);
    lemma_step_is_step_bits(27, 0xde437u32);
    lemma_act_step(27, 0x1c8u64, 0xde437u32, 0x1bc86fu32, 0x1u32);
    lemma_step_is_step_bits(27, 0x6f21bu32);
    lemma_act_step(27, 0x390u64, 0x6f21bu32, 0xde437u32, 0x1u32);
    lemma_step_is_step_bits(27, 0x3790du32);
    lemma_act_step(27, 0x720u64, 0x3790du32, 0x6f21bu32, 0x1u32);
    lemma_step_is_step_bits(27, 0x1bc86u32);
    lemma_act_step(27, 0xe40u64, 0x1bc86u32, 0x3790du32, 0x1u32);
    lemma_step_is_step_bits(27, 0xde43u32);
    lemma_act_step(27, 0x1c80u64, 0xde43u32, 0x1bc86u32, 0x1u32);
    lemma_step_is_step_bits(27, 0x6f21u32);
    lemma_act_step(27, 0x3900u64, 0x6f21u32, 0xde43u32, 0x1u32);
    lemma_step_is_step_bits(27, 0x3790u32);
    lemma_act_step(27, 0x7200u64, 0x3790u32, 0x6f21u32, 0x1u32);
    lemma_step_is_step_bits(27, 0x1bc8u32);
    lemma_act_step(27, 0xe400u64, 0x1bc8u32, 0x3790u32, 0x1u32);
    lemma_step_is_step_bits(27, 0xde4u32);
    lemma_act_step(27, 0x1c800u64, 0xde4u32, 0x1bc8u32, 0x1u32);
    lemma_step_is_step_bits(27, 0x6f2u32);
    lemma_act_step(27, 0x39000u64, 0x6f2u32, 0xde4u32, 0x1u32);
    lemma_step_is_step_bits(27, 0x379u32);
    lemma_act_step(27, 0x72000u64, 0x379u32, 0x6f2u32, 0x1u32);
    lemma_step_is_step_bits(27, 0x1bcu32);
    lemma_act_step(27, 0xe4000u64, 0x1bcu32, 0x379u32, 0x1u32);
    lemma_step_is_step_bits(27, 0xdeu32);
    lemma_act_step(27, 0x1c8000u64, 0xdeu32, 0x1bcu32, 0x1u32);
    lemma_step_is_step_bits(27, 0x6fu32);
    lemma_act_step(27, 0x390000u64, 0x6fu32, 0xdeu32, 0x1u32);
    lemma_step_is_step_bits(27, 0x37u32);
    lemma_act_step(27, 0x720000u64, 0x37u32, 0x6fu32, 0x1u32);
    lemma_step_is_step_bits(27, 0x1bu32);
    lemma_act_step(27, 0xe40000u64, 0x1bu32, 0x37u32, 0x1u32);
    lemma_step_is_step_bits(27, 0xdu32);
    lemma_act_step(27, 0x1c80000u64, 0xdu32, 0x1bu32, 0x1u32);
    lemma_step_is_step_bits(27, 0x6u32);
    lemma_act_step(27, 0x3900000u64, 0x6u32, 0xdu32, 0x1u32);
    lemma_step_is_step_bits(27, 0x3u32);
    lemma_act_step(27, 0x7200000u64, 0x3u32, 0x6u32, 0x1u32);
    lemma_step_is_step_bits(27, 0x1u32);
    lemma_act_step(27, 0xe400001u64, 0x1u32, 0x3u32, 0x1u32);
}

/// The polynomials that stand for 1, 2, 4, ... steps of the register of 27
/// bits.
proof fn lemma_squares_27()
    ensures
        power_is(27, 1, 0x2u64),
        power_is(27, 2, 0x4u64),
        power_is(27, 4, 0x10u64),
        power_is(27, 8, 0x100u64),
        power_is(27, 16, 0x10000u64),
        power_is(27, 32, 0x7c00037u64),
        power_is(27, 64, 0x3de466cu64),
        power_is(27, 128, 0x5b3631du64),
        power_is(27, 256, 0x2469165u64),
        power_is(27, 512, 0x25c2dcfu64),
        power_is(27, 1024, 0x4cc532cu64),
        power_is(27, 2048, 0x2729a10u64),
        power_is(27, 4096, 0x499d274u64),
        power_is(27, 8192, 0x1f0c68eu64),
        power_is(27, 16384, 0x6da46du64),
        power_is(27, 32768, 0x53bdb8u64),
        power_is(27, 65536, 0x5120b39u64),
        power_is(27, 131072, 0x60baf35u64),
        power_is(27, 262144, 0x6b2468cu64),
        power_is(27, 524288, 0x2be03f4u64),
        power_is(27, 1048576, 0x35615ceu64),
        power_is(27, 2097152, 0xbbcec9u64),
        power_is(27, 4194304, 0x39950a6u64),
        power_is(27, 8388608, 0x5e449c4u64),
        power_is(27, 16777216, 0x3418d29u64),
        power_is(27, 33554432, 0x4bbaed1u64),
        power_is(27, 67108864, 0x7205c01u64),
        power_is(27, 134217728, 0x2u64),
{
    bit_facts();
    lemma_annihilated_27();
    lemma_power_one(27);
    lemma_power_mul(27, 0xe400001u64, 1, 0x2u64, 1, 0x2u64, 0x0u64, 0x4u64);
    lemma_power_mul(27, 0xe400001u64, 2, 0x4u64, 2, 0x4u64, 0x0u64, 0x10u64);
    lemma_power_mul(27, 0xe400001u64, 4, 0x10u64, 4, 0x10u64, 0x0u64, 0x100u64);
    lemma_power_mul(27, 0xe400001u64, 8, 0x100u64, 8, 0x100u64, 0x0u64, 0x10000u64);
    lemma_power_mul(27, 0xe400001u64, 16, 0x10000u64, 16, 0x10000u64, 0x37u64, 0x7c00037u64);
    lemma_power_mul(27, 0xe400001u64, 32, 0x7c00037u64, 32, 0x7c00037u64, 0x39e4379u64, 0x3de466cu64);
    lemma_power_mul(27, 0xe400001u64, 64, 0x3de466cu64, 64, 0x3de466cu64, 0xe7774du64, 0x5b3631du64);
    lemma_power_mul(27, 0xe400001u64, 128, 0x5b3631du64, 128, 0x5b3631du64, 0x3439034u64, 0x2469165u64);
    lemma_power_mul(27, 0xe400001u64, 256, 0x2469165u64, 256, 0x2469165u64, 0xdd39deu64, 0x25c2dcfu64);
    lemma_power_mul(27, 0xe400001u64, 512, 0x25c2dcfu64, 512, 0x25c2dcfu64, 0xdd0379u64, 0x4cc532cu64);
    lemma_power_mul(27, 0xe400001u64, 1024, 0x4cc532cu64, 1024, 0x4cc532cu64, 0x3779e40u64, 0x2729a10u64);
    lemma_power_mul(27, 0xe400001u64, 2048, 0x2729a10u64, 2048, 0x2729a10u64, 0xddd374u64, 0x499d274u64);
    lemma_power_mul(27, 0xe400001u64, 4096, 0x499d274u64, 4096, 0x499d274u64, 0x374d39eu64, 0x1f0c68eu64);
    lemma_power_mul(27, 0xe400001u64, 8192, 0x1f0c68eu64, 8192, 0x1f0c68eu64, 0x39e439u64, 0x6da46du64);
    lemma_power_mul(27, 0xe400001u64, 16384, 0x6da46du64, 16384, 0x6da46du64, 0x3a9e9u64, 0x53bdb8u64);
    lemma_power_mul(27, 0xe400001u64, 32768, 0x53bdb8u64, 32768, 0x53bdb8u64, 0x34e79u64, 0x5120b39u64);
    lemma_power_mul(27, 0xe400001u64, 65536, 0x5120b39u64, 65536, 0x5120b39u64, 0x34eaa74u64, 0x60baf35u64);
    lemma_power_mul(27, 0xe400001u64, 131072, 0x60baf35u64, 131072, 0x60baf35u64, 0x3a7439du64, 0x6b2468cu64);
    lemma_power_mul(27, 0xe400001u64, 262144, 0x6b2468cu64, 262144, 0x6b2468cu64, 0x3aa43a4u64, 0x2be03f4u64);
    lemma_power_mul(27, 0xe400001u64, 524288, 0x2be03f4u64, 524288, 0x2be03f4u64, 0xd340deu64, 0x35615ceu64);
    lemma_power_mul(27, 0xe400001u64, 1048576, 0x35615ceu64, 1048576, 0x35615ceu64, 0xea9e9du64, 0xbbcec9u64);
    lemma_power_mul(27, 0xe400001u64, 2097152, 0xbbcec9u64, 2097152, 0xbbcec9u64, 0xd00e7u64, 0x39950a6u64);
    lemma_power_mul(27, 0xe400001u64, 4194304, 0x39950a6u64, 4194304, 0x39950a6u64, 0xe40dd0u64, 0x5e449c4u64);
    lemma_power_mul(27, 0xe400001u64, 8388608, 0x5e449c4u64, 8388608, 0x5e449c4u64, 0x340dd39u64, 0x3418d29u64);
    lemma_power_mul(27, 0xe400001u64, 16777216, 0x3418d29u64, 16777216, 0x3418d29u64, 0xeaaa90u64, 0x4bbaed1u64);
    lemma_power_mul(27, 0xe400001u64, 33554432, 0x4bbaed1u64, 33554432, 0x4bbaed1u64, 0x3740d00u64, 0x7205c01u64);
    lemma_power_mul(27, 0xe400001u64, 67108864, 0x7205c01u64, 67108864, 0x7205c01u64, 0x3900003u64, 0x2u64);
}

/// 19173961 steps do not take the state 1 of the register of 27 bits to
/// itself.
proof fn lemma_moves_27_7()
    ensures
        !is_period(27, 1, 19173961),
{
    bit_facts();
    lemma_annihilated_27();
    lemma_squares_27();
    lemma_power_mul(27, 0xe400001u64, 1, 0x2u64, 8, 0x100u64, 0x0u64, 0x200u64);
    lemma_power_mul(27, 0xe400001u64, 9, 0x200u64, 64, 0x3de466cu64, 0x99u64, 0x4ccd899u64);
    lemma_power_mul(27, 0xe400001u64, 73, 0x4ccd899u64, 512, 0x25c2dcfu64, 0x1a99585u64, 0x2a22542u64);
    lemma_power_mul(27, 0xe400001u64, 585, 0x2a22542u64, 4096, 0x499d274u64, 0x1f41639u64, 0x24e0bd1u64);
    lemma_power_mul(27, 0xe400001u64, 4681, 0x24e0bd1u64, 32768, 0x53bdb8u64, 0x1e53cfu64, 0x6fc8ff7u64);
    lemma_power_mul(27, 0xe400001u64, 37449, 0x6fc8ff7u64, 262144, 0x6b2468cu64, 0x3877352u64, 0x6753ab6u64);
    lemma_power_mul(27, 0xe400001u64, 299593, 0x6753ab6u64, 2097152, 0xbbcec9u64, 0x4423b6u64, 0x3bdbe30u64);
    lemma_power_mul(27, 0xe400001u64, 2396745, 0x3bdbe30u64, 16777216, 0x3418d29u64, 0xd94105u64, 0x5e1b8b5u64);
    lemma_power_moves(27, 0xe400001u64, 19173961, 0x5e1b8b5u64, 0x3a123ddu64, 0x1683f85u64);
}

/// 1838599 steps do not take the state 1 of the register of 27 bits to
/// itself.
proof fn lemma_moves_27_73()
    ensures
        !is_period(27, 1, 1838599),
{
    bit_facts();
    lemma_annihilated_27();
    lemma_squares_27();
    lemma_power_mul(27, 0xe400001u64, 1, 0x2u64, 2, 0x4u64, 0x0u64, 0x8u64);
    lemma_power_mul(27, 0xe400001u64, 3, 0x8u64, 4, 0x10u64, 0x0u64, 0x80u64);
    lemma_power_mul(27, 0xe400001u64, 7, 0x80u64, 512, 0x25c2dcfu64, 0x30u64, 0x216e7b0u64);
    lemma_power_mul(27, 0xe400001u64, 519, 0x216e7b0u64, 1024, 0x4cc532cu64, 0x19c6d9bu64, 0x493e8dbu64);
    lemma_power_mul(27, 0xe400001u64, 1543, 0x493e8dbu64, 2048, 0x2729a10u64, 0x1a9807du64, 0x40653cdu64);
    lemma_power_mul(27, 0xe400001u64, 3591, 0x40653cdu64, 262144, 0x6b2468cu64, 0x2becc6du64, 0x78d15b1u64);
    lemma_power_mul(27, 0xe400001u64, 265735, 0x78d15b1u64, 524288, 0x2be03f4u64, 0x16b0f8du64, 0x603d3b9u64);
    lemma_power_mul(27, 0xe400001u64, 790023, 0x603d3b9u64, 1048576, 0x35615ceu64, 0x1f78772u64, 0x29c0cecu64);
    lemma_power_moves(27, 0xe400001u64, 1838599, 0x29c0cecu64, 0x11c63f6u64, 0x73e3dfu64);
}

/// 511 steps do not take the state 1 of the register of 27 bits to
/// itself.
proof fn lemma_moves_27_262657()
    ensures
        !is_period(27, 1, 511),
{
    bit_facts();
    lemma_annihilated_27();
    lemma_squares_27();
    lemma_power_mul(27, 0xe400001u64, 1, 0x2u64, 2, 0x4u64, 0x0u64, 0x8u64);
    lemma_power_mul(27, 0xe400001u64, 3, 0x8u64, 4, 0x10u64, 0x0u64, 0x80u64);
    lemma_power_mul(27, 0xe400001u64, 7, 0x80u64, 8, 0x100u64, 0x0u64, 0x8000u64);
    lemma_power_mul(27, 0xe400001u64, 15, 0x8000u64, 16, 0x10000u64, 0x1bu64, 0x4c0001bu64);
    lemma_power_mul(27, 0xe400001u64, 31, 0x4c0001bu64, 32, 0x7c00037u64, 0x22f21a7u64, 0x1ef2336u64);
    lemma_power_mul(27, 0xe400001u64, 63, 0x1ef2336u64, 64, 0x3de466cu64, 0x73bba6u64, 0x5f9b18eu64);
    lemma_power_mul(27, 0xe400001u64, 127, 0x5f9b18eu64, 128, 0x5b3631du64, 0x3787994u64, 0x60348b2u64);
    lemma_power_mul(27, 0xe400001u64, 255, 0x60348b2u64, 256, 0x2469165u64, 0x14dd45du64, 0x60e16e7u64);
    lemma_power_moves(27, 0xe400001u64, 511, 0x60e16e7u64, 0x45a5bfcu64, 0x2e26e89u64);
}

/// The state 1 of the register of 27 bits comes back after 134217727 steps and
/// not before.
pub proof fn lemma_unit_period_27(k: nat)
    requires
        0 < k < 134217727,
    ensures
        is_period(27, 1, 134217727),
        !is_period(27, 1, k),
{
    lemma_squares_27();
    lemma_cycle_start(27, 1, 134217728);
    lemma_moves_27_7();
    lemma_prime_7();
    lemma_moves_27_73();
    lemma_prime_73();
    lemma_moves_27_262657();
    lemma_prime_262657();
    let f0 = Seq::<nat>::empty();
    assert(product(f0) == 1);
    let f1 = f0.push(7);
    lemma_product_push(f0, 7);
    assert(product(f1) == 7);
    let f2 = f1.push(73);
    lemma_product_push(f1, 73);
    assert(product(f2) == 511);
    let f3 = f2.push(262657);
    lemma_product_push(f2, 262657);
    assert(product(f3) == 134217727);
    let factors = f3;
    assert forall|j: int| 0 <= j < factors.len() implies !is_period(
        27,
        1,
        134217727nat / #[trigger] factors[j],
    ) by {
        if j == 0 {
            assert(factors[0] == 7);
            assert(134217727nat / 7nat == 19173961);
        }
        if j == 1 {
            assert(factors[1] == 73);
            assert(134217727nat / 73nat == 1838599);
        }
        if j == 2 {
            assert(factors[2] == 262657);
            assert(134217727nat / 262657nat == 511);
        }
    }
    lemma_mask_facts(27);
    lemma_exact_period(27, 1, 134217727, factors, k);
}

} // verus!
