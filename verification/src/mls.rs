//! Maximal-length sequences: pseudorandom binary sequences produced by a
//! linear feedback shift register over a primitive polynomial.

use crate::mls_algebra::lemma_step_linear;
use vstd::arithmetic::power2::pow2;
use vstd::bits::{lemma_u32_pow2_no_overflow, lemma_u32_shl_is_mul};
use vstd::prelude::*;

verus! {

/// Feedback masks, one per state width from 1 to 31 bits.
pub const MLS_POLY: [u32; 31] = [
    0b1,
    0b11,
    0b110,
    0b1100,
    0b10100,
    0b110000,
    0b1001000,
    0b10111000,
    0b100010000,
    0b1001000000,
    0b10100000000,
    0b110010100000,
    0b1101100000000,
    0b11000010001000,
    0b110000000000000,
    0b1101000000001000,
    0b10010000000000000,
    0b100000010000000000,
    0b1100011000000000000,
    0b10010000000000000000,
    0b101000000000000000000,
    0b1100000000000000000000,
    0b10000100000000000000000,
    0b111000010000000000000000,
    0b1001000000000000000000000,
    0b10000000000000000000100011,
    0b100000000000000000000010011,
    0b1001000000000000000000000000,
    0b10100000000000000000000000000,
    0b100000000000000000000000101001,
    0b1001000000000000000000000000000,
];

/// Number of one bits in `x`.
pub open spec fn popcount(x: u32) -> nat
    decreases x,
{
    if x == 0 {
        0
    } else {
        (x % 2) as nat + popcount(x / 2)
    }
}

/// Parity of the number of one bits in `x`.
pub open spec fn parity(x: u32) -> u32 {
    (popcount(x) % 2) as u32
}

/// `u32::count_ones` returns the number of ones in the binary representation
/// of its argument.
pub assume_specification[ u32::count_ones ](x: u32) -> (r: u32)
    ensures
        r == popcount(x),
;

/// The feedback mask for an `n`-bit register.
pub open spec fn feedback_mask(n: u32) -> u32
    recommends
        1 <= n <= 31,
{
    MLS_POLY[n - 1]
}

/// The mask `2^n - 1` of an `n`-bit register.
pub open spec fn state_mask(n: u32) -> u32
    recommends
        1 <= n <= 31,
{
    ((1u32 << n) - 1) as u32
}

/// One step of the register: shift left, feed the parity of the tapped bits
/// into bit 0, and keep the `n` low bits.
pub open spec fn step(n: u32, s: u32) -> u32
    recommends
        1 <= n <= 31,
{
    ((s << 1) | parity(feedback_mask(n) & s)) & state_mask(n)
}

/// The mask of an `n`-bit register is `2^n - 1`.
pub proof fn lemma_state_mask_is_pow2(n: u32)
    requires
        1 <= n <= 31,
    ensures
        state_mask(n) == pow2(n as nat) - 1,
{
    lemma_u32_pow2_no_overflow(n as nat);
    lemma_u32_shl_is_mul(1, n);
    lemma_mask_facts(n);
}

/// Facts about the mask of an `n`-bit register.
pub proof fn lemma_mask_facts(n: u32)
    by (bit_vector)
    requires
        1 <= n <= 31,
    ensures
        (1u32 << n) >= 2,
        (1u32 << n) - 1 == ((1u32 << n) - 1) as u32,
        ((1u32 << n) - 1) as u32 >= 1,
{
}

/// The low bit of a word is 0 or 1, and is the word modulo 2.
pub proof fn lemma_low_bit(x: u32)
    by (bit_vector)
    ensures
        x & 1 <= 1,
        x & 1 == x % 2,
        x >> 1 == x / 2,
{
}

/// A step takes a nonzero `n`-bit state to a nonzero `n`-bit state: the
/// register never reaches zero.
pub proof fn lemma_step_in_range(n: u32, s: u32)
    requires
        1 <= n <= 31,
        1 <= s <= state_mask(n),
    ensures
        1 <= step(n, s) <= state_mask(n),
{
    lemma_step_linear(n, s, 0);
}

/// What a register is: its width `bits` and its current `state`.
pub struct MlsState {
    pub bits: u32,
    pub state: u32,
}

impl MlsState {
    /// The width is between 1 and 31 and the state is a nonzero value of
    /// that many bits.
    pub open spec fn wf(self) -> bool {
        &&& 1 <= self.bits <= 31
        &&& 1 <= self.state <= state_mask(self.bits)
    }

    /// The register with all bits set.
    pub open spec fn full(n: u32) -> MlsState {
        MlsState { bits: n, state: state_mask(n) }
    }

    /// The register whose state is `1 + seed mod (2^n - 1)`.
    pub open spec fn seeded(n: u32, seed: u32) -> MlsState {
        MlsState { bits: n, state: (1 + seed % state_mask(n)) as u32 }
    }

    /// Sequence length, `2^n - 1`.
    pub open spec fn length(self) -> u32 {
        state_mask(self.bits)
    }

    /// The next register in the sequence.
    pub open spec fn stepped(self) -> MlsState {
        MlsState { bits: self.bits, state: step(self.bits, self.state) }
    }

    /// The register `k` steps further in the sequence.
    pub open spec fn advanced(self, k: nat) -> MlsState
        decreases k,
    {
        if k == 0 {
            self
        } else {
            self.advanced((k - 1) as nat).stepped()
        }
    }

    /// The current value in the sequence: bit `n - 1` of the state.
    pub open spec fn value(self) -> u32 {
        (self.state >> ((self.bits - 1) as u32)) & 1
    }
}

/// A register of `n` bits, `1 <= n <= 31`, in a state that is never zero.
#[derive(Copy, Clone)]
pub struct Mls {
    /// State space size in bits.
    n: u32,
    /// Current state.
    s: u32,
}

impl View for Mls {
    type V = MlsState;

    closed spec fn view(&self) -> MlsState {
        MlsState { bits: self.n, state: self.s }
    }
}

impl Mls {
    /// Holds of every register: it is well-formed.
    #[verifier::type_invariant]
    pub open spec fn inv(self) -> bool {
        self@.wf()
    }

    /// Creates a register of `n` bits with all bits set.
    pub fn new(n: u32) -> (m: Mls)
        requires
            1 <= n <= 31,
        ensures
            m@ == MlsState::full(n),
            m@.wf(),
    {
        proof {
            lemma_mask_facts(n);
        }
        Mls { n, s: (1u32 << n) - 1 }
    }

    /// Creates a register of `n` bits whose state is `1 + seed mod (2^n - 1)`.
    pub fn new_with_seed(n: u32, seed: u32) -> (m: Mls)
        requires
            1 <= n <= 31,
        ensures
            m@ == MlsState::seeded(n, seed),
            m@.wf(),
    {
        proof {
            lemma_mask_facts(n);
        }
        let len: u32 = (1u32 << n) - 1;
        Mls { n, s: 1 + seed % len }
    }

    /// State space size in bits.
    pub fn bits(self) -> (n: u32)
        ensures
            n == self@.bits,
            1 <= n <= 31,
    {
        proof {
            use_type_invariant(self);
        }
        self.n
    }

    /// Current state: a nonzero value of `bits()` bits.
    pub fn state(self) -> (s: u32)
        ensures
            s == self@.state,
            self@.wf(),
    {
        proof {
            use_type_invariant(self);
        }
        self.s
    }

    /// Sequence length: the sequence repeats after `2^n - 1` steps.
    pub fn length(self) -> (len: u32)
        ensures
            len == self@.length(),
            len == pow2(self@.bits as nat) - 1,
    {
        proof {
            use_type_invariant(self);
            lemma_mask_facts(self.n);
            lemma_state_mask_is_pow2(self.n);
        }
        (1u32 << self.n) - 1
    }

    /// Returns the next state in the sequence.
    pub fn next(self) -> (m: Mls)
        ensures
            m@ == self@.stepped(),
            m@.wf(),
    {
        proof {
            use_type_invariant(self);
            lemma_step_in_range(self.n, self.s);
        }
        let feedback: u32 = MLS_POLY[(self.n - 1) as usize] & self.s;
        let ones: u32 = feedback.count_ones();
        proof {
            lemma_low_bit(ones);
        }
        let parity: u32 = ones & 1;
        Mls { n: self.n, s: ((self.s << 1) | parity) & self.length() }
    }

    /// The current value in the sequence, either 0 or 1: the top bit of the
    /// state.
    pub fn value(self) -> (v: u32)
        ensures
            v == self@.value(),
            v <= 1,
    {
        proof {
            use_type_invariant(self);
        }
        let x: u32 = self.s >> (self.n - 1);
        proof {
            lemma_low_bit(x);
        }
        x & 1
    }
}

} // verus!
