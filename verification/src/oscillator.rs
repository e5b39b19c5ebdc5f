//! A sine oscillator whose frequency is an input.

use crate::filter::TAU_BITS;
use crate::numeric::{convert, converted, Float, Real, DEFAULT_SR};
use core::marker::PhantomData;
use vstd::prelude::*;

verus! {

/// Multiplier of the hash that seeds the phase.
pub const HASH_MULTIPLIER: u64 = 0xd6e8_feb8_6659_fd93;

/// `2^24`: the hash fraction, divided by it, lies in `[0, 1)`, and both are
/// exact in single precision.
pub const FRACTION_SCALE: i64 = 16777216;

/// One round of the hash: fold the high half into the low half, then
/// multiply modulo `2^64`.
pub open spec fn hash_round(x: u64) -> u64 {
    (((x ^ (x >> 32)) * HASH_MULTIPLIER) % 0x1_0000_0000_0000_0000) as u64
}

/// A 64-bit hash: two rounds, and a last fold.
pub open spec fn hash64(x: u64) -> u64 {
    let y = hash_round(hash_round(x));
    y ^ (y >> 32)
}

/// The 24 most significant bits of the hash of `x`: a number below `2^24`.
pub open spec fn hash_fraction(x: u64) -> u64 {
    hash64(x) / 0x100_0000_0000
}

/// The 24 most significant bits of the hash of `x`.
pub fn hashed_fraction(x: u64) -> (r: u64)
    ensures
        r == hash_fraction(x),
        r < FRACTION_SCALE,
{
    let a: u64 = (x ^ (x >> 32)).wrapping_mul(HASH_MULTIPLIER);
    let b: u64 = (a ^ (a >> 32)).wrapping_mul(HASH_MULTIPLIER);
    let h: u64 = b ^ (b >> 32);
    proof {
        lemma_shift_is_fraction(h);
    }
    h >> 40
}

proof fn lemma_shift_is_fraction(h: u64)
    by (bit_vector)
    ensures
        h >> 40 == h / 0x100_0000_0000,
        h >> 40 < 0x100_0000,
{
}

/// The value in `[0, 1)` that a hash stands for: `hash_fraction / 2^24`.
pub open spec fn unit_of_hash<F: Float>(x: u64) -> F {
    F::from_int(hash_fraction(x) as i64).quotient(F::from_int(FRACTION_SCALE))
}

/// Maps a hash to a value in `[0, 1)`.
pub fn rnd<F: Float>(x: u64) -> (r: F)
    ensures
        r == unit_of_hash::<F>(x),
{
    F::new(hashed_fraction(x) as i64).div(F::new(FRACTION_SCALE))
}

/// What a sine oscillator holds: the phase in cycles, the time that one
/// sample takes in seconds, and the hash that seeds the phase.
pub struct SineState<F> {
    pub phase: F,
    pub sample_duration: F,
    pub hash: u32,
}

impl<F: Real> SineState<F> {
    /// The state after a reset: the phase is derived from the hash, and the
    /// sample duration is `1 / sample_rate` where a sample rate is given.
    pub open spec fn cleared(self, sample_rate: Option<F>) -> Self {
        SineState {
            phase: unit_of_hash::<F>(self.hash as u64),
            sample_duration: match sample_rate {
                Some(sr) => F::from_int(1).quotient(sr),
                None => self.sample_duration,
            },
            hash: self.hash,
        }
    }

    /// The state after one sample at `frequency` Hz: the phase grows by
    /// `frequency * sample_duration` and is never wrapped.
    pub open spec fn stepped(self, frequency: F) -> Self {
        SineState {
            phase: self.phase.sum(frequency.product(self.sample_duration)),
            sample_duration: self.sample_duration,
            hash: self.hash,
        }
    }

    /// The output at the current phase: `sin(2 pi * phase)`.
    pub open spec fn output(self) -> F {
        self.phase.product(F::from_double(TAU_BITS)).sine()
    }
}

/// Sine oscillator. The phase and the sample duration are held in `F`,
/// whatever the sample type `T` is; double precision is the usual choice.
/// - Input 0: frequency (Hz)
/// - Output 0: sine wave
pub struct SineComponent<T: Float, F: Real> {
    _marker: PhantomData<T>,
    phase: F,
    sample_duration: F,
    hash: u32,
}

impl<T: Float, F: Real> Clone for SineComponent<T, F> {
    fn clone(&self) -> (copy: Self)
        ensures
            copy == *self,
    {
        SineComponent {
            _marker: PhantomData,
            phase: self.phase,
            sample_duration: self.sample_duration,
            hash: self.hash,
        }
    }
}

impl<T: Float, F: Real> View for SineComponent<T, F> {
    type V = SineState<F>;

    closed spec fn view(&self) -> SineState<F> {
        SineState { phase: self.phase, sample_duration: self.sample_duration, hash: self.hash }
    }
}

impl<T: Float, F: Real> SineComponent<T, F> {
    /// An oscillator at phase zero and the default sample rate, with hash
    /// zero.
    pub fn new() -> (node: Self)
        ensures
            node@ == (SineState {
                phase: F::from_int(0),
                sample_duration: F::from_int(1).quotient(F::from_int(DEFAULT_SR)),
                hash: 0,
            }),
    {
        SineComponent {
            _marker: PhantomData,
            phase: F::new(0),
            sample_duration: F::new(1).div(F::new(DEFAULT_SR)),
            hash: 0,
        }
    }

    /// Derives the phase from the hash; where a sample rate is given, binds
    /// the sample duration to it.
    pub fn reset(&mut self, sample_rate: Option<F>)
        ensures
            final(self)@ == old(self)@.cleared(sample_rate),
    {
        self.phase = rnd(self.hash as u64);
        if let Some(sr) = sample_rate {
            self.sample_duration = F::new(1).div(sr);
        }
    }

    /// Advances the phase by one sample at the frequency `input[0]` and
    /// returns the sine at the new phase.
    pub fn tick(&mut self, input: &[T; 1]) -> (output: [T; 1])
        ensures
            final(self)@ == old(self)@.stepped(converted::<T, F>(input[0])),
            output[0] == converted::<F, T>(final(self)@.output()),
    {
        let frequency: F = convert(input[0]);
        self.phase = self.phase.add(frequency.mul(self.sample_duration));
        [convert(self.phase.mul(F::from_bits(TAU_BITS)).sin())]
    }

    /// Records the hash that the next reset derives the phase from.
    pub fn set_hash(&mut self, hash: u32)
        ensures
            final(self)@ == (SineState {
                phase: old(self)@.phase,
                sample_duration: old(self)@.sample_duration,
                hash,
            }),
    {
        self.hash = hash;
    }
}

} // verus!
