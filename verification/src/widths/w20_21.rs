//! The registers of 20 to 21 bits: the state 1 has period `2^n - 1` exactly.

use crate::divisors::{lemma_product_push, product};
use crate::mls::{lemma_mask_facts, step};
use crate::mls_algebra::{act, clmul, iterate, lemma_step_is_step_bits, step_bits};
use crate::mls_orbit::{
    is_period, lemma_act_step, lemma_cycle_start, lemma_exact_period, lemma_power_moves,
    lemma_power_mul, lemma_power_one, power_is,
};
use crate::primes::{
    lemma_prime_11, lemma_prime_127, lemma_prime_3, lemma_prime_31, lemma_prime_337, lemma_prime_41,
    lemma_prime_5, lemma_prime_7,
};
use vstd::prelude::*;

verus! {

/// What bit arithmetic says of these registers: the first steps from the state 1,
/// and products of polynomials modulo the characteristic polynomial.
proof fn bit_facts()
    by (bit_vector)
    ensures
        step_bits(20, 0x1u32) == 0x2u32,
        step_bits(20, 0x2u32) == 0x4u32,
        step_bits(20, 0x4u32) == 0x8u32,
        step_bits(20, 0x8u32) == 0x10u32,
        step_bits(20, 0x10u32) == 0x20u32,
        step_bits(20, 0x20u32) == 0x40u32,
        step_bits(20, 0x40u32) == 0x80u32,
        step_bits(20, 0x80u32) == 0x100u32,
        step_bits(20, 0x100u32) == 0x200u32,
        step_bits(20, 0x200u32) == 0x400u32,
        step_bits(20, 0x400u32) == 0x800u32,
        step_bits(20, 0x800u32) == 0x1000u32,
        step_bits(20, 0x1000u32) == 0x2000u32,
        step_bits(20, 0x2000u32) == 0x4000u32,
        step_bits(20, 0x4000u32) == 0x8000u32,
        step_bits(20, 0x8000u32) == 0x10000u32,
        step_bits(20, 0x10000u32) == 0x20001u32,
        step_bits(20, 0x20001u32) == 0x40002u32,
        step_bits(20, 0x40002u32) == 0x80004u32,
        step_bits(20, 0x80004u32) == 0x9u32,
        0x9u32 ^ 0x0u32 == 0x9u32,
        0x8u32 ^ 0x9u32 == 0x1u32,
        0x1u32 ^ 0x1u32 == 0x0u32,
        clmul(0x2u64, 0x2u64) == clmul(0x0u64, 0x100009u64) ^ 0x4u64,
        clmul(0x4u64, 0x4u64) == clmul(0x0u64, 0x100009u64) ^ 0x10u64,
        clmul(0x10u64, 0x10u64) == clmul(0x0u64, 0x100009u64) ^ 0x100u64,
        clmul(0x100u64, 0x100u64) == clmul(0x0u64, 0x100009u64) ^ 0x10000u64,
        clmul(0x10000u64, 0x10000u64) == clmul(0x1000u64, 0x100009u64) ^ 0x9000u64,
        clmul(0x9000u64, 0x9000u64) == clmul(0x410u64, 0x100009u64) ^ 0x2490u64,
        clmul(0x2490u64, 0x2490u64) == clmul(0x41u64, 0x100009u64) ^ 0x4349u64,
        clmul(0x4349u64, 0x4349u64) == clmul(0x100u64, 0x100009u64) ^ 0x51941u64,
        clmul(0x51941u64, 0x51941u64) == clmul(0x11014u64, 0x100009u64) ^ 0x880b5u64,
        clmul(0x880b5u64, 0x880b5u64) == clmul(0x40402u64, 0x100009u64) ^ 0x46103u64,
        clmul(0x46103u64, 0x46103u64) == clmul(0x10140u64, 0x100009u64) ^ 0x80b45u64,
        clmul(0x80b45u64, 0x80b45u64) == clmul(0x40006u64, 0x100009u64) ^ 0x11027u64,
        clmul(0x11027u64, 0x11027u64) == clmul(0x1010u64, 0x100009u64) ^ 0x9485u64,
        clmul(0x9485u64, 0x9485u64) == clmul(0x411u64, 0x100009u64) ^ 0x6488u64,
        clmul(0x6488u64, 0x6488u64) == clmul(0x141u64, 0x100009u64) ^ 0x4b09u64,
        clmul(0x4b09u64, 0x4b09u64) == clmul(0x104u64, 0x100009u64) ^ 0x50965u64,
        clmul(0x50965u64, 0x50965u64) == clmul(0x11004u64, 0x100009u64) ^ 0x88435u64,
        clmul(0x88435u64, 0x88435u64) == clmul(0x40403u64, 0x100009u64) ^ 0x4210au64,
        clmul(0x4210au64, 0x4210au64) == clmul(0x10040u64, 0x100009u64) ^ 0x80204u64,
        clmul(0x80204u64, 0x80204u64) == clmul(0x40002u64, 0x100009u64) ^ 0x2u64,
        clmul(0x2u64, 0x10u64) == clmul(0x0u64, 0x100009u64) ^ 0x20u64,
        clmul(0x20u64, 0x10000u64) == clmul(0x2u64, 0x100009u64) ^ 0x12u64,
        clmul(0x12u64, 0x2490u64) == clmul(0x0u64, 0x100009u64) ^ 0x20020u64,
        clmul(0x20020u64, 0x51941u64) == clmul(0xa322u64, 0x100009u64) ^ 0x49212u64,
        clmul(0x49212u64, 0x46103u64) == clmul(0x13fa1u64, 0x100009u64) ^ 0x9a69fu64,
        clmul(0x9a69fu64, 0x11027u64) == clmul(0x93dfu64, 0x100009u64) ^ 0xa5f1au64,
        clmul(0xa5f1au64, 0x6488u64) == clmul(0x3f02u64, 0x100009u64) ^ 0x51ac2u64,
        clmul(0x51ac2u64, 0x50965u64) == clmul(0x115dfu64, 0x100009u64) ^ 0xbf02du64,
        clmul(0xbf02du64, 0x4210au64) == clmul(0x2eb51u64, 0x100009u64) ^ 0xc5debu64,
        clmul(0xc5debu64, 0xc5debu64 ^ 1) == clmul(0x50117u64, 0x100009u64) ^ 1,
        clmul(0x2u64, 0x4u64) == clmul(0x0u64, 0x100009u64) ^ 0x8u64,
        clmul(0x8u64, 0x10000u64) == clmul(0x0u64, 0x100009u64) ^ 0x80000u64,
        clmul(0x80000u64, 0x9000u64) == clmul(0x4800u64, 0x100009u64) ^ 0x20800u64,
        clmul(0x20800u64, 0x51941u64) == clmul(0xa1a4u64, 0x100009u64) ^ 0xda484u64,
        clmul(0xda484u64, 0x880b5u64) == clmul(0x6bf1du64, 0x100009u64) ^ 0x6eba1u64,
        clmul(0x6eba1u64, 0x11027u64) == clmul(0x685du64, 0x100009u64) ^ 0x5dcf2u64,
        clmul(0x5dcf2u64, 0x9485u64) == clmul(0x2a63u64, 0x100009u64) ^ 0x84741u64,
        clmul(0x84741u64, 0x50965u64) == clmul(0x29131u64, 0x100009u64) ^ 0xe339cu64,
        clmul(0xe339cu64, 0x88435u64) == clmul(0x76bccu64, 0x100009u64) ^ 0xff200u64,
        clmul(0x85028u64, 0xff200u64 ^ 1) == clmul(0x7c921u64, 0x100009u64) ^ 1,
        clmul(0x2u64, 0x10u64) == clmul(0x0u64, 0x100009u64) ^ 0x20u64,
        clmul(0x20u64, 0x100u64) == clmul(0x0u64, 0x100009u64) ^ 0x2000u64,
        clmul(0x2000u64, 0x10000u64) == clmul(0x200u64, 0x100009u64) ^ 0x1200u64,
        clmul(0x1200u64, 0x2490u64) == clmul(0x20u64, 0x100009u64) ^ 0x2120u64,
        clmul(0x2120u64, 0x46103u64) == clmul(0x88cu64, 0x100009u64) ^ 0xd0f8cu64,
        clmul(0xd0f8cu64, 0x11027u64) == clmul(0xddefu64, 0x100009u64) ^ 0x2db3u64,
        clmul(0x2db3u64, 0x9485u64) == clmul(0x14au64, 0x100009u64) ^ 0x235e5u64,
        clmul(0x235e5u64, 0x6488u64) == clmul(0xc21u64, 0x100009u64) ^ 0x94481u64,
        clmul(0x94481u64, 0x50965u64) == clmul(0x2c16au64, 0x100009u64) ^ 0x4a5dfu64,
        clmul(0x17b5eu64, 0x4a5dfu64 ^ 1) == clmul(0x57bdu64, 0x100009u64) ^ 1,
        clmul(0x2u64, 0x9000u64) == clmul(0x0u64, 0x100009u64) ^ 0x12000u64,
        clmul(0x12000u64, 0x46103u64) == clmul(0x4ed2u64, 0x100009u64) ^ 0x15842u64,
        clmul(0x15842u64, 0x4b09u64) == clmul(0x5f3u64, 0x100009u64) ^ 0x1e639u64,
        clmul(0x4f1feu64, 0x1e639u64 ^ 1) == clmul(0x7319u64, 0x100009u64) ^ 1,
        clmul(0x2u64, 0x4u64) == clmul(0x0u64, 0x100009u64) ^ 0x8u64,
        clmul(0x8u64, 0x10u64) == clmul(0x0u64, 0x100009u64) ^ 0x80u64,
        clmul(0x80u64, 0x9000u64) == clmul(0x4u64, 0x100009u64) ^ 0x80024u64,
        clmul(0x80024u64, 0x2490u64) == clmul(0x1248u64, 0x100009u64) ^ 0x48048u64,
        clmul(0x48048u64, 0x4349u64) == clmul(0x12c9u64, 0x100009u64) ^ 0x2cc89u64,
        clmul(0x2cc89u64, 0x51941u64) == clmul(0x9c67u64, 0x100009u64) ^ 0x8c096u64,
        clmul(0x8c096u64, 0x880b5u64) == clmul(0x42610u64, 0x100009u64) ^ 0x184feu64,
        clmul(0x184feu64, 0x9485u64) == clmul(0xdceu64, 0x100009u64) ^ 0x693b8u64,
        clmul(0x693b8u64, 0x6488u64) == clmul(0x16fau64, 0x100009u64) ^ 0xa00eau64,
        clmul(0x538au64, 0xa00eau64 ^ 1) == clmul(0x23b7u64, 0x100009u64) ^ 1,
        step_bits(21, 0x1u32) == 0x2u32,
        step_bits(21, 0x2u32) == 0x4u32,
        step_bits(21, 0x4u32) == 0x8u32,
        step_bits(21, 0x8u32) == 0x10u32,
        step_bits(21, 0x10u32) == 0x20u32,
        step_bits(21, 0x20u32) == 0x40u32,
        step_bits(21, 0x40u32) == 0x80u32,
        step_bits(21, 0x80u32) == 0x100u32,
        step_bits(21, 0x100u32) == 0x200u32,
        step_bits(21, 0x200u32) == 0x400u32,
        step_bits(21, 0x400u32) == 0x800u32,
        step_bits(21, 0x800u32) == 0x1000u32,
        step_bits(21, 0x1000u32) == 0x2000u32,
        step_bits(21, 0x2000u32) == 0x4000u32,
        step_bits(21, 0x4000u32) == 0x8000u32,
        step_bits(21, 0x8000u32) == 0x10000u32,
        step_bits(21, 0x10000u32) == 0x20000u32,
        step_bits(21, 0x20000u32) == 0x40000u32,
        step_bits(21, 0x40000u32) == 0x80001u32,
        step_bits(21, 0x80001u32) == 0x100002u32,
        step_bits(21, 0x100002u32) == 0x5u32,
        0x5u32 ^ 0x0u32 == 0x5u32,
        0x4u32 ^ 0x5u32 == 0x1u32,
        0x1u32 ^ 0x1u32 == 0x0u32,
        clmul(0x2u64, 0x2u64) == clmul(0x0u64, 0x200005u64) ^ 0x4u64,
        clmul(0x4u64, 0x4u64) == clmul(0x0u64, 0x200005u64) ^ 0x10u64,
        clmul(0x10u64, 0x10u64) == clmul(0x0u64, 0x200005u64) ^ 0x100u64,
        clmul(0x100u64, 0x100u64) == clmul(0x0u64, 0x200005u64) ^ 0x10000u64,
        clmul(0x10000u64, 0x10000u64) == clmul(0x800u64, 0x200005u64) ^ 0x2800u64,
        clmul(0x2800u64, 0x2800u64) == clmul(0x22u64, 0x200005u64) ^ 0xaau64,
        clmul(0xaau64, 0xaau64) == clmul(0x0u64, 0x200005u64) ^ 0x4444u64,
        clmul(0x4444u64, 0x4444u64) == clmul(0x80u64, 0x200005u64) ^ 0x101290u64,
        clmul(0x101290u64, 0x101290u64) == clmul(0x80009u64, 0x200005u64) ^ 0xc412du64,
        clmul(0xc412du64, 0xc412du64) == clmul(0x28080u64, 0x200005u64) ^ 0x986d1u64,
        clmul(0x986d1u64, 0x986d1u64) == clmul(0x20a00u64, 0x200005u64) ^ 0x1e7301u64,
        clmul(0x1e7301u64, 0x1e7301u64) == clmul(0xaa0a9u64, 0x200005u64) ^ 0x5220cu64,
        clmul(0x5220cu64, 0x5220cu64) == clmul(0x8820u64, 0x200005u64) ^ 0x6a8f0u64,
        clmul(0x6a8f0u64, 0x6a8f0u64) == clmul(0xa222u64, 0x200005u64) ^ 0x27faau64,
        clmul(0x27faau64, 0x27faau64) == clmul(0x20aau64, 0x200005u64) ^ 0x15e646u64,
        clmul(0x15e646u64, 0x15e646u64) == clmul(0x88aa1u64, 0x200005u64) ^ 0x1eb031u64,
        clmul(0x1eb031u64, 0x1eb031u64) == clmul(0xaa229u64, 0x200005u64) ^ 0x2f8cu64,
        clmul(0x2f8cu64, 0x2f8cu64) == clmul(0x22u64, 0x200005u64) ^ 0x1540fau64,
        clmul(0x1540fau64, 0x1540fau64) == clmul(0x88881u64, 0x200005u64) ^ 0xaffc1u64,
        clmul(0xaffc1u64, 0xaffc1u64) == clmul(0x222aau64, 0x200005u64) ^ 0x1ff803u64,
        clmul(0x1ff803u64, 0x1ff803u64) == clmul(0xaaaabu64, 0x200005u64) ^ 0x2u64,
        clmul(0x2u64, 0x100u64) == clmul(0x0u64, 0x200005u64) ^ 0x200u64,
        clmul(0x200u64, 0xaau64) == clmul(0x0u64, 0x200005u64) ^ 0x15400u64,
        clmul(0x15400u64, 0xc412du64) == clmul(0x7d23u64, 0x200005u64) ^ 0x11adafu64,
        clmul(0x11adafu64, 0x5220cu64) == clmul(0x2a869u64, 0x200005u64) ^ 0x1e6c09u64,
        clmul(0x1e6c09u64, 0x15e646u64) == clmul(0xc51f5u64, 0x200005u64) ^ 0x11aa57u64,
        clmul(0x11aa57u64, 0x1540fau64) == clmul(0xa4e1fu64, 0x200005u64) ^ 0x13e1a5u64,
        clmul(0x9c434u64, 0x13e1a5u64 ^ 1) == clmul(0x40d45u64, 0x200005u64) ^ 1,
        clmul(0x2u64, 0x4444u64) == clmul(0x0u64, 0x200005u64) ^ 0x8888u64,
        clmul(0x8888u64, 0x27faau64) == clmul(0x968u64, 0x200005u64) ^ 0x45498u64,
        clmul(0x66f74u64, 0x45498u64 ^ 1) == clmul(0xc2d1u64, 0x200005u64) ^ 1,
        clmul(0x2u64, 0x4u64) == clmul(0x0u64, 0x200005u64) ^ 0x8u64,
        clmul(0x8u64, 0x10u64) == clmul(0x0u64, 0x200005u64) ^ 0x80u64,
        clmul(0x80u64, 0x100u64) == clmul(0x0u64, 0x200005u64) ^ 0x8000u64,
        clmul(0x8000u64, 0xaau64) == clmul(0x2u64, 0x200005u64) ^ 0x15000au64,
        clmul(0x15000au64, 0x1e7301u64) == clmul(0xc047fu64, 0x200005u64) ^ 0x66b89u64,
        clmul(0x66b89u64, 0x5220cu64) == clmul(0xf821u64, 0x200005u64) ^ 0x2d8c9u64,
        clmul(0x1fa2c5u64, 0x2d8c9u64 ^ 1) == clmul(0x1b39du64, 0x200005u64) ^ 1,
{
}

/// The characteristic polynomial of the register of 20 bits takes the state 1
/// to 0.
proof fn lemma_annihilated_20()
    ensures
        act(20, 0x100009u64, 1) == 0,
{
    bit_facts();
    lemma_act_step(20, 0x1u64, 0x9u32, step(20, 0x9u32), 0);
    lemma_step_is_step_bits(20, 0x80004u32);
    lemma_act_step(20, 0x2u64, 0x80004u32, 0x9u32, 0x9u32);
    lemma_step_is_step_bits(20, 0x40002u32);
    lemma_act_step(20, 0x4u64, 0x40002u32, 0x80004u32, 0x9u32);
    lemma_step_is_step_bits(20, 0x20001u32);
    lemma_act_step(20, 0x8u64, 0x20001u32, 0x40002u32, 0x9u32);
    lemma_step_is_step_bits(20, 0x10000u32);
    lemma_act_step(20, 0x10u64, 0x10000u32, 0x20001u32, 0x9u32);
    lemma_step_is_step_bits(20, 0x8000u32);
    lemma_act_step(20, 0x20u64, 0x8000u32, 0x10000u32, 0x9u32);
    lemma_step_is_step_bits(20, 0x4000u32);
    lemma_act_step(20, 0x40u64, 0x4000u32, 0x8000u32, 0x9u32);
    lemma_step_is_step_bits(20, 0x2000u32);
    lemma_act_step(20, 0x80u64, 0x2000u32, 0x4000u32, 0x9u32);
    lemma_step_is_step_bits(20, 0x1000u32);
    lemma_act_step(20, 0x100u64, 0x1000u32, 0x2000u32, 0x9u32);
    lemma_step_is_step_bits(20, 0x800u32);
    lemma_act_step(20, 0x200u64, 0x800u32, 0x1000u32, 0x9u32);
    lemma_step_is_step_bits(20, 0x400u32);
    lemma_act_step(20, 0x400u64, 0x400u32, 0x800u32, 0x9u32);
    lemma_step_is_step_bits(20, 0x200u32);
    lemma_act_step(20, 0x800u64, 0x200u32, 0x400u32, 0x9u32);
    lemma_step_is_step_bits(20, 0x100u32);
    lemma_act_step(20, 0x1000u64, 0x100u32, 0x200u32, 0x9u32);
    lemma_step_is_step_bits(20, 0x80u32);
    lemma_act_step(20, 0x2000u64, 0x80u32, 0x100u32, 0x9u32);
    lemma_step_is_step_bits(20, 0x40u32);
    lemma_act_step(20, 0x4000u64, 0x40u32, 0x80u32, 0x9u32);
    lemma_step_is_step_bits(20, 0x20u32);
    lemma_act_step(20, 0x8000u64, 0x20u32, 0x40u32, 0x9u32);
    lemma_step_is_step_bits(20, 0x10u32);
    lemma_act_step(20, 0x10000u64, 0x10u32, 0x20u32, 0x9u32);
    lemma_step_is_step_bits(20, 0x8u32);
    lemma_act_step(20, 0x20001u64, 0x8u32, 0x10u32, 0x9u32);
    lemma_step_is_step_bits(20, 0x4u32);
    lemma_act_step(20, 0x40002u64, 0x4u32, 0x8u32, 0x1u32);
    lemma_step_is_step_bits(20, 0x2u32);
    lemma_act_step(20, 0x80004u64, 0x2u32, 0x4u32, 0x1u32);
    lemma_step_is_step_bits(20, 0x1u32);
    lemma_act_step(20, 0x100009u64, 0x1u32, 0x2u32, 0x1u32);
}

/// The polynomials that stand for 1, 2, 4, ... steps of the register of 20
/// bits.
proof fn lemma_squares_20()
    ensures
        power_is(20, 1, 0x2u64),
        power_is(20, 2, 0x4u64),
        power_is(20, 4, 0x10u64),
        power_is(20, 8, 0x100u64),
        power_is(20, 16, 0x10000u64),
        power_is(20, 32, 0x9000u64),
        power_is(20, 64, 0x2490u64),
        power_is(20, 128, 0x4349u64),
        power_is(20, 256, 0x51941u64),
        power_is(20, 512, 0x880b5u64),
        power_is(20, 1024, 0x46103u64),
        power_is(20, 2048, 0x80b45u64),
        power_is(20, 4096, 0x11027u64),
        power_is(20, 8192, 0x9485u64),
        power_is(20, 16384, 0x6488u64),
        power_is(20, 32768, 0x4b09u64),
        power_is(20, 65536, 0x50965u64),
        power_is(20, 131072, 0x88435u64),
        power_is(20, 262144, 0x4210au64),
        power_is(20, 524288, 0x80204u64),
        power_is(20, 1048576, 0x2u64),
{
    bit_facts();
    lemma_annihilated_20();
    lemma_power_one(20);
    lemma_power_mul(20, 0x100009u64, 1, 0x2u64, 1, 0x2u64, 0x0u64, 0x4u64);
    lemma_power_mul(20, 0x100009u64, 2, 0x4u64, 2, 0x4u64, 0x0u64, 0x10u64);
    lemma_power_mul(20, 0x100009u64, 4, 0x10u64, 4, 0x10u64, 0x0u64, 0x100u64);
    lemma_power_mul(20, 0x100009u64, 8, 0x100u64, 8, 0x100u64, 0x0u64, 0x10000u64);
    lemma_power_mul(20, 0x100009u64, 16, 0x10000u64, 16, 0x10000u64, 0x1000u64, 0x9000u64);
    lemma_power_mul(20, 0x100009u64, 32, 0x9000u64, 32, 0x9000u64, 0x410u64, 0x2490u64);
    lemma_power_mul(20, 0x100009u64, 64, 0x2490u64, 64, 0x2490u64, 0x41u64, 0x4349u64);
    lemma_power_mul(20, 0x100009u64, 128, 0x4349u64, 128, 0x4349u64, 0x100u64, 0x51941u64);
    lemma_power_mul(20, 0x100009u64, 256, 0x51941u64, 256, 0x51941u64, 0x11014u64, 0x880b5u64);
    lemma_power_mul(20, 0x100009u64, 512, 0x880b5u64, 512, 0x880b5u64, 0x40402u64, 0x46103u64);
    lemma_power_mul(20, 0x100009u64, 1024, 0x46103u64, 1024, 0x46103u64, 0x10140u64, 0x80b45u64);
    lemma_power_mul(20, 0x100009u64, 2048, 0x80b45u64, 2048, 0x80b45u64, 0x40006u64, 0x11027u64);
    lemma_power_mul(20, 0x100009u64, 4096, 0x11027u64, 4096, 0x11027u64, 0x1010u64, 0x9485u64);
    lemma_power_mul(20, 0x100009u64, 8192, 0x9485u64, 8192, 0x9485u64, 0x411u64, 0x6488u64);
    lemma_power_mul(20, 0x100009u64, 16384, 0x6488u64, 16384, 0x6488u64, 0x141u64, 0x4b09u64);
    lemma_power_mul(20, 0x100009u64, 32768, 0x4b09u64, 32768, 0x4b09u64, 0x104u64, 0x50965u64);
    lemma_power_mul(20, 0x100009u64, 65536, 0x50965u64, 65536, 0x50965u64, 0x11004u64, 0x88435u64);
    lemma_power_mul(20, 0x100009u64, 131072, 0x88435u64, 131072, 0x88435u64, 0x40403u64, 0x4210au64);
    lemma_power_mul(20, 0x100009u64, 262144, 0x4210au64, 262144, 0x4210au64, 0x10040u64, 0x80204u64);
    lemma_power_mul(20, 0x100009u64, 524288, 0x80204u64, 524288, 0x80204u64, 0x40002u64, 0x2u64);
}

/// 349525 steps do not take the state 1 of the register of 20 bits to
/// itself.
proof fn lemma_moves_20_3()
    ensures
        !is_period(20, 1, 349525),
{
    bit_facts();
    lemma_annihilated_20();
    lemma_squares_20();
    lemma_power_mul(20, 0x100009u64, 1, 0x2u64, 4, 0x10u64, 0x0u64, 0x20u64);
    lemma_power_mul(20, 0x100009u64, 5, 0x20u64, 16, 0x10000u64, 0x2u64, 0x12u64);
    lemma_power_mul(20, 0x100009u64, 21, 0x12u64, 64, 0x2490u64, 0x0u64, 0x20020u64);
    lemma_power_mul(20, 0x100009u64, 85, 0x20020u64, 256, 0x51941u64, 0xa322u64, 0x49212u64);
    lemma_power_mul(20, 0x100009u64, 341, 0x49212u64, 1024, 0x46103u64, 0x13fa1u64, 0x9a69fu64);
    lemma_power_mul(20, 0x100009u64, 1365, 0x9a69fu64, 4096, 0x11027u64, 0x93dfu64, 0xa5f1au64);
    lemma_power_mul(20, 0x100009u64, 5461, 0xa5f1au64, 16384, 0x6488u64, 0x3f02u64, 0x51ac2u64);
    lemma_power_mul(20, 0x100009u64, 21845, 0x51ac2u64, 65536, 0x50965u64, 0x115dfu64, 0xbf02du64);
    lemma_power_mul(20, 0x100009u64, 87381, 0xbf02du64, 262144, 0x4210au64, 0x2eb51u64, 0xc5debu64);
    lemma_power_moves(20, 0x100009u64, 349525, 0xc5debu64, 0xc5debu64, 0x50117u64);
}

/// 209715 steps do not take the state 1 of the register of 20 bits to
/// itself.
proof fn lemma_moves_20_5()
    ensures
        !is_period(20, 1, 209715),
{
    bit_facts();
    lemma_annihilated_20();
    lemma_squares_20();
    lemma_power_mul(20, 0x100009u64, 1, 0x2u64, 2, 0x4u64, 0x0u64, 0x8u64);
    lemma_power_mul(20, 0x100009u64, 3, 0x8u64, 16, 0x10000u64, 0x0u64, 0x80000u64);
    lemma_power_mul(20, 0x100009u64, 19, 0x80000u64, 32, 0x9000u64, 0x4800u64, 0x20800u64);
    lemma_power_mul(20, 0x100009u64, 51, 0x20800u64, 256, 0x51941u64, 0xa1a4u64, 0xda484u64);
    lemma_power_mul(20, 0x100009u64, 307, 0xda484u64, 512, 0x880b5u64, 0x6bf1du64, 0x6eba1u64);
    lemma_power_mul(20, 0x100009u64, 819, 0x6eba1u64, 4096, 0x11027u64, 0x685du64, 0x5dcf2u64);
    lemma_power_mul(20, 0x100009u64, 4915, 0x5dcf2u64, 8192, 0x9485u64, 0x2a63u64, 0x84741u64);
    lemma_power_mul(20, 0x100009u64, 13107, 0x84741u64, 65536, 0x50965u64, 0x29131u64, 0xe339cu64);
    lemma_power_mul(20, 0x100009u64, 78643, 0xe339cu64, 131072, 0x88435u64, 0x76bccu64, 0xff200u64);
    lemma_power_moves(20, 0x100009u64, 209715, 0xff200u64, 0x85028u64, 0x7c921u64);
}

/// 95325 steps do not take the state 1 of the register of 20 bits to
/// itself.
proof fn lemma_moves_20_11()
    ensures
        !is_period(20, 1, 95325),
{
    bit_facts();
    lemma_annihilated_20();
    lemma_squares_20();
    lemma_power_mul(20, 0x100009u64, 1, 0x2u64, 4, 0x10u64, 0x0u64, 0x20u64);
    lemma_power_mul(20, 0x100009u64, 5, 0x20u64, 8, 0x100u64, 0x0u64, 0x2000u64);
    lemma_power_mul(20, 0x100009u64, 13, 0x2000u64, 16, 0x10000u64, 0x200u64, 0x1200u64);
    lemma_power_mul(20, 0x100009u64, 29, 0x1200u64, 64, 0x2490u64, 0x20u64, 0x2120u64);
    lemma_power_mul(20, 0x100009u64, 93, 0x2120u64, 1024, 0x46103u64, 0x88cu64, 0xd0f8cu64);
    lemma_power_mul(20, 0x100009u64, 1117, 0xd0f8cu64, 4096, 0x11027u64, 0xddefu64, 0x2db3u64);
    lemma_power_mul(20, 0x100009u64, 5213, 0x2db3u64, 8192, 0x9485u64, 0x14au64, 0x235e5u64);
    lemma_power_mul(20, 0x100009u64, 13405, 0x235e5u64, 16384, 0x6488u64, 0xc21u64, 0x94481u64);
    lemma_power_mul(20, 0x100009u64, 29789, 0x94481u64, 65536, 0x50965u64, 0x2c16au64, 0x4a5dfu64);
    lemma_power_moves(20, 0x100009u64, 95325, 0x4a5dfu64, 0x17b5eu64, 0x57bdu64);
}

/// 33825 steps do not take the state 1 of the register of 20 bits to
/// itself.
proof fn lemma_moves_20_31()
    ensures
        !is_period(20, 1, 33825),
{
    bit_facts();
    lemma_annihilated_20();
    lemma_squares_20();
    lemma_power_mul(20, 0x100009u64, 1, 0x2u64, 32, 0x9000u64, 0x0u64, 0x12000u64);
    lemma_power_mul(20, 0x100009u64, 33, 0x12000u64, 1024, 0x46103u64, 0x4ed2u64, 0x15842u64);
    lemma_power_mul(20, 0x100009u64, 1057, 0x15842u64, 32768, 0x4b09u64, 0x5f3u64, 0x1e639u64);
    lemma_power_moves(20, 0x100009u64, 33825, 0x1e639u64, 0x4f1feu64, 0x7319u64);
}

/// 25575 steps do not take the state 1 of the register of 20 bits to
/// itself.
proof fn lemma_moves_20_41()
    ensures
        !is_period(20, 1, 25575),
{
    bit_facts();
    lemma_annihilated_20();
    lemma_squares_20();
    lemma_power_mul(20, 0x100009u64, 1, 0x2u64, 2, 0x4u64, 0x0u64, 0x8u64);
    lemma_power_mul(20, 0x100009u64, 3, 0x8u64, 4, 0x10u64, 0x0u64, 0x80u64);
    lemma_power_mul(20, 0x100009u64, 7, 0x80u64, 32, 0x9000u64, 0x4u64, 0x80024u64);
    lemma_power_mul(20, 0x100009u64, 39, 0x80024u64, 64, 0x2490u64, 0x1248u64, 0x48048u64);
    lemma_power_mul(20, 0x100009u64, 103, 0x48048u64, 128, 0x4349u64, 0x12c9u64, 0x2cc89u64);
    lemma_power_mul(20, 0x100009u64, 231, 0x2cc89u64, 256, 0x51941u64, 0x9c67u64, 0x8c096u64);
    lemma_power_mul(20, 0x100009u64, 487, 0x8c096u64, 512, 0x880b5u64, 0x42610u64, 0x184feu64);
    lemma_power_mul(20, 0x100009u64, 999, 0x184feu64, 8192, 0x9485u64, 0xdceu64, 0x693b8u64);
    lemma_power_mul(20, 0x100009u64, 9191, 0x693b8u64, 16384, 0x6488u64, 0x16fau64, 0xa00eau64);
    lemma_power_moves(20, 0x100009u64, 25575, 0xa00eau64, 0x538au64, 0x23b7u64);
}

/// The state 1 of the register of 20 bits comes back after 1048575 steps and
/// not before.
pub proof fn lemma_unit_period_20(k: nat)
    requires
        0 < k < 1048575,
    ensures
        is_period(20, 1, 1048575),
        !is_period(20, 1, k),
{
    lemma_squares_20();
    lemma_cycle_start(20, 1, 1048576);
    lemma_moves_20_3();
    lemma_prime_3();
    lemma_moves_20_5();
    lemma_prime_5();
    lemma_moves_20_11();
    lemma_prime_11();
    lemma_moves_20_31();
    lemma_prime_31();
    lemma_moves_20_41();
    lemma_prime_41();
    let f0 = Seq::<nat>::empty();
    assert(product(f0) == 1);
    let f1 = f0.push(3);
    lemma_product_push(f0, 3);
    assert(product(f1) == 3);
    let f2 = f1.push(5);
    lemma_product_push(f1, 5);
    assert(product(f2) == 15);
    let f3 = f2.push(5);
    lemma_product_push(f2, 5);
    assert(product(f3) == 75);
    let f4 = f3.push(11);
    lemma_product_push(f3, 11);
    assert(product(f4) == 825);
    let f5 = f4.push(31);
    lemma_product_push(f4, 31);
    assert(product(f5) == 25575);
    let f6 = f5.push(41);
    lemma_product_push(f5, 41);
    assert(product(f6) == 1048575);
    let factors = f6;
    assert forall|j: int| 0 <= j < factors.len() implies !is_period(
        20,
        1,
        1048575nat / #[trigger] factors[j],
    ) by {
        if j == 0 {
            assert(factors[0] == 3);
            assert(1048575nat / 3nat == 349525);
        }
        if j == 1 {
            assert(factors[1] == 5);
            assert(1048575nat / 5nat == 209715);
        }
        if j == 2 {
            assert(factors[2] == 5);
            assert(1048575nat / 5nat == 209715);
        }
        if j == 3 {
            assert(factors[3] == 11);
            assert(1048575nat / 11nat == 95325);
        }
        if j == 4 {
            assert(factors[4] == 31);
            assert(1048575nat / 31nat == 33825);
        }
        if j == 5 {
            assert(factors[5] == 41);
            assert(1048575nat / 41nat == 25575);
        }
    }
    lemma_mask_facts(20);
    lemma_exact_period(20, 1, 1048575, factors, k);
}

/// The characteristic polynomial of the register of 21 bits takes the state 1
/// to 0.
proof fn lemma_annihilated_21()
    ensures
        act(21, 0x200005u64, 1) == 0,
{
    bit_facts();
    lemma_act_step(21, 0x1u64, 0x5u32, step(21, 0x5u32), 0);
    lemma_step_is_step_bits(21, 0x100002u32);
    lemma_act_step(21, 0x2u64, 0x100002u32, 0x5u32, 0x5u32);
    lemma_step_is_step_bits(21, 0x80001u32);
    lemma_act_step(21, 0x4u64, 0x80001u32, 0x100002u32, 0x5u32);
    lemma_step_is_step_bits(21, 0x40000u32);
    lemma_act_step(21, 0x8u64, 0x40000u32, 0x80001u32, 0x5u32);
    lemma_step_is_step_bits(21, 0x20000u32);
    lemma_act_step(21, 0x10u64, 0x20000u32, 0x40000u32, 0x5u32);
    lemma_step_is_step_bits(21, 0x10000u32);
    lemma_act_step(21, 0x20u64, 0x10000u32, 0x20000u32, 0x5u32);
    lemma_step_is_step_bits(21, 0x8000u32);
    lemma_act_step(21, 0x40u64, 0x8000u32, 0x10000u32, 0x5u32);
    lemma_step_is_step_bits(21, 0x4000u32);
    lemma_act_step(21, 0x80u64, 0x4000u32, 0x8000u32, 0x5u32);
    lemma_step_is_step_bits(21, 0x2000u32);
    lemma_act_step(21, 0x100u64, 0x2000u32, 0x4000u32, 0x5u32);
    lemma_step_is_step_bits(21, 0x1000u32);
    lemma_act_step(21, 0x200u64, 0x1000u32, 0x2000u32, 0x5u32);
    lemma_step_is_step_bits(21, 0x800u32);
    lemma_act_step(21, 0x400u64, 0x800u32, 0x1000u32, 0x5u32);
    lemma_step_is_step_bits(21, 0x400u32);
    lemma_act_step(21, 0x800u64, 0x400u32, 0x800u32, 0x5u32);
    lemma_step_is_step_bits(21, 0x200u32);
    lemma_act_step(21, 0x1000u64, 0x200u32, 0x400u32, 0x5u32);
    lemma_step_is_step_bits(21, 0x100u32);
    lemma_act_step(21, 0x2000u64, 0x100u32, 0x200u32, 0x5u32);
    lemma_step_is_step_bits(21, 0x80u32);
    lemma_act_step(21, 0x4000u64, 0x80u32, 0x100u32, 0x5u32);
    lemma_step_is_step_bits(21, 0x40u32);
    lemma_act_step(21, 0x8000u64, 0x40u32, 0x80u32, 0x5u32);
    lemma_step_is_step_bits(21, 0x20u32);
    lemma_act_step(21, 0x10000u64, 0x20u32, 0x40u32, 0x5u32);
    lemma_step_is_step_bits(21, 0x10u32);
    lemma_act_step(21, 0x20000u64, 0x10u32, 0x20u32, 0x5u32);
    lemma_step_is_step_bits(21, 0x8u32);
    lemma_act_step(21, 0x40000u64, 0x8u32, 0x10u32, 0x5u32);
    lemma_step_is_step_bits(21, 0x4u32);
    lemma_act_step(21, 0x80001u64, 0x4u32, 0x8u32, 0x5u32);
    lemma_step_is_step_bits(21, 0x2u32);
    lemma_act_step(21, 0x100002u64, 0x2u32, 0x4u32, 0x1u32);
    lemma_step_is_step_bits(21, 0x1u32);
    lemma_act_step(21, 0x200005u64, 0x1u32, 0x2u32, 0x1u32);
}

/// The polynomials that stand for 1, 2, 4, ... steps of the register of 21
/// bits.
proof fn lemma_squares_21()
    ensures
        power_is(21, 1, 0x2u64),
        power_is(21, 2, 0x4u64),
        power_is(21, 4, 0x10u64),
        power_is(21, 8, 0x100u64),
        power_is(21, 16, 0x10000u64),
        power_is(21, 32, 0x2800u64),
        power_is(21, 64, 0xaau64),
        power_is(21, 128, 0x4444u64),
        power_is(21, 256, 0x101290u64),
        power_is(21, 512, 0xc412du64),
        power_is(21, 1024, 0x986d1u64),
        power_is(21, 2048, 0x1e7301u64),
        power_is(21, 4096, 0x5220cu64),
        power_is(21, 8192, 0x6a8f0u64),
        power_is(21, 16384, 0x27faau64),
        power_is(21, 32768, 0x15e646u64),
        power_is(21, 65536, 0x1eb031u64),
        power_is(21, 131072, 0x2f8cu64),
        power_is(21, 262144, 0x1540fau64),
        power_is(21, 524288, 0xaffc1u64),
        power_is(21, 1048576, 0x1ff803u64),
        power_is(21, 2097152, 0x2u64),
{
    bit_facts();
    lemma_annihilated_21();
    lemma_power_one(21);
    lemma_power_mul(21, 0x200005u64, 1, 0x2u64, 1, 0x2u64, 0x0u64, 0x4u64);
    lemma_power_mul(21, 0x200005u64, 2, 0x4u64, 2, 0x4u64, 0x0u64, 0x10u64);
    lemma_power_mul(21, 0x200005u64, 4, 0x10u64, 4, 0x10u64, 0x0u64, 0x100u64);
    lemma_power_mul(21, 0x200005u64, 8, 0x100u64, 8, 0x100u64, 0x0u64, 0x10000u64);
    lemma_power_mul(21, 0x200005u64, 16, 0x10000u64, 16, 0x10000u64, 0x800u64, 0x2800u64);
    lemma_power_mul(21, 0x200005u64, 32, 0x2800u64, 32, 0x2800u64, 0x22u64, 0xaau64);
    lemma_power_mul(21, 0x200005u64, 64, 0xaau64, 64, 0xaau64, 0x0u64, 0x4444u64);
    lemma_power_mul(21, 0x200005u64, 128, 0x4444u64, 128, 0x4444u64, 0x80u64, 0x101290u64);
    lemma_power_mul(21, 0x200005u64, 256, 0x101290u64, 256, 0x101290u64, 0x80009u64, 0xc412du64);
    lemma_power_mul(21, 0x200005u64, 512, 0xc412du64, 512, 0xc412du64, 0x28080u64, 0x986d1u64);
    lemma_power_mul(21, 0x200005u64, 1024, 0x986d1u64, 1024, 0x986d1u64, 0x20a00u64, 0x1e7301u64);
    lemma_power_mul(21, 0x200005u64, 2048, 0x1e7301u64, 2048, 0x1e7301u64, 0xaa0a9u64, 0x5220cu64);
    lemma_power_mul(21, 0x200005u64, 4096, 0x5220cu64, 4096, 0x5220cu64, 0x8820u64, 0x6a8f0u64);
    lemma_power_mul(21, 0x200005u64, 8192, 0x6a8f0u64, 8192, 0x6a8f0u64, 0xa222u64, 0x27faau64);
    lemma_power_mul(21, 0x200005u64, 16384, 0x27faau64, 16384, 0x27faau64, 0x20aau64, 0x15e646u64);
    lemma_power_mul(21, 0x200005u64, 32768, 0x15e646u64, 32768, 0x15e646u64, 0x88aa1u64, 0x1eb031u64);
    lemma_power_mul(21, 0x200005u64, 65536, 0x1eb031u64, 65536, 0x1eb031u64, 0xaa229u64, 0x2f8cu64);
    lemma_power_mul(21, 0x200005u64, 131072, 0x2f8cu64, 131072, 0x2f8cu64, 0x22u64, 0x1540fau64);
    lemma_power_mul(21, 0x200005u64, 262144, 0x1540fau64, 262144, 0x1540fau64, 0x88881u64, 0xaffc1u64);
    lemma_power_mul(21, 0x200005u64, 524288, 0xaffc1u64, 524288, 0xaffc1u64, 0x222aau64, 0x1ff803u64);
    lemma_power_mul(21, 0x200005u64, 1048576, 0x1ff803u64, 1048576, 0x1ff803u64, 0xaaaabu64, 0x2u64);
}

/// 299593 steps do not take the state 1 of the register of 21 bits to
/// itself.
proof fn lemma_moves_21_7()
    ensures
        !is_period(21, 1, 299593),
{
    bit_facts();
    lemma_annihilated_21();
    lemma_squares_21();
    lemma_power_mul(21, 0x200005u64, 1, 0x2u64, 8, 0x100u64, 0x0u64, 0x200u64);
    lemma_power_mul(21, 0x200005u64, 9, 0x200u64, 64, 0xaau64, 0x0u64, 0x15400u64);
    lemma_power_mul(21, 0x200005u64, 73, 0x15400u64, 512, 0xc412du64, 0x7d23u64, 0x11adafu64);
    lemma_power_mul(21, 0x200005u64, 585, 0x11adafu64, 4096, 0x5220cu64, 0x2a869u64, 0x1e6c09u64);
    lemma_power_mul(21, 0x200005u64, 4681, 0x1e6c09u64, 32768, 0x15e646u64, 0xc51f5u64, 0x11aa57u64);
    lemma_power_mul(21, 0x200005u64, 37449, 0x11aa57u64, 262144, 0x1540fau64, 0xa4e1fu64, 0x13e1a5u64);
    lemma_power_moves(21, 0x200005u64, 299593, 0x13e1a5u64, 0x9c434u64, 0x40d45u64);
}

/// 16513 steps do not take the state 1 of the register of 21 bits to
/// itself.
proof fn lemma_moves_21_127()
    ensures
        !is_period(21, 1, 16513),
{
    bit_facts();
    lemma_annihilated_21();
    lemma_squares_21();
    lemma_power_mul(21, 0x200005u64, 1, 0x2u64, 128, 0x4444u64, 0x0u64, 0x8888u64);
    lemma_power_mul(21, 0x200005u64, 129, 0x8888u64, 16384, 0x27faau64, 0x968u64, 0x45498u64);
    lemma_power_moves(21, 0x200005u64, 16513, 0x45498u64, 0x66f74u64, 0xc2d1u64);
}

/// 6223 steps do not take the state 1 of the register of 21 bits to
/// itself.
proof fn lemma_moves_21_337()
    ensures
        !is_period(21, 1, 6223),
{
    bit_facts();
    lemma_annihilated_21();
    lemma_squares_21();
    lemma_power_mul(21, 0x200005u64, 1, 0x2u64, 2, 0x4u64, 0x0u64, 0x8u64);
    lemma_power_mul(21, 0x200005u64, 3, 0x8u64, 4, 0x10u64, 0x0u64, 0x80u64);
    lemma_power_mul(21, 0x200005u64, 7, 0x80u64, 8, 0x100u64, 0x0u64, 0x8000u64);
    lemma_power_mul(21, 0x200005u64, 15, 0x8000u64, 64, 0xaau64, 0x2u64, 0x15000au64);
    lemma_power_mul(21, 0x200005u64, 79, 0x15000au64, 2048, 0x1e7301u64, 0xc047fu64, 0x66b89u64);
    lemma_power_mul(21, 0x200005u64, 2127, 0x66b89u64, 4096, 0x5220cu64, 0xf821u64, 0x2d8c9u64);
    lemma_power_moves(21, 0x200005u64, 6223, 0x2d8c9u64, 0x1fa2c5u64, 0x1b39du64);
}

/// The state 1 of the register of 21 bits comes back after 2097151 steps and
/// not before.
pub proof fn lemma_unit_period_21(k: nat)
    requires
        0 < k < 2097151,
    ensures
        is_period(21, 1, 2097151),
        !is_period(21, 1, k),
{
    lemma_squares_21();
    lemma_cycle_start(21, 1, 2097152);
    lemma_moves_21_7();
    lemma_prime_7();
    lemma_moves_21_127();
    lemma_prime_127();
    lemma_moves_21_337();
    lemma_prime_337();
    let f0 = Seq::<nat>::empty();
    assert(product(f0) == 1);
    let f1 = f0.push(7);
    lemma_product_push(f0, 7);
    assert(product(f1) == 7);
    let f2 = f1.push(7);
    lemma_product_push(f1, 7);
    assert(product(f2) == 49);
    let f3 = f2.push(127);
    lemma_product_push(f2, 127);
    assert(product(f3) == 6223);
    let f4 = f3.push(337);
    lemma_product_push(f3, 337);
    assert(product(f4) == 2097151);
    let factors = f4;
    assert forall|j: int| 0 <= j < factors.len() implies !is_period(
        21,
        1,
        2097151nat / #[trigger] factors[j],
    ) by {
        if j == 0 {
            assert(factors[0] == 7);
            assert(2097151nat / 7nat == 299593);
        }
        if j == 1 {
            assert(factors[1] == 7);
            assert(2097151nat / 7nat == 299593);
        }
        if j == 2 {
            assert(factors[2] == 127);
            assert(2097151nat / 127nat == 16513);
        }
        if j == 3 {
            assert(factors[3] == 337);
            assert(2097151nat / 337nat == 6223);
        }
    }
    lemma_mask_facts(21);
    lemma_exact_period(21, 1, 2097151, factors, k);
}

} // verus!
