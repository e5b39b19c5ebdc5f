//! Noise generators: one driven by a maximal-length sequence, one by a 64-bit
//! linear congruential generator.

use crate::mls::{Mls, MlsState};
use crate::numeric::Float;
use core::marker::PhantomData;
use vstd::prelude::*;

verus! {

/// Multiplier of the linear congruential generator.
pub const LCG_MULTIPLIER: u64 = 6364136223846793005;

/// Increment of the linear congruential generator.
pub const LCG_INCREMENT: u64 = 1442695040888963407;

/// Double-precision bit pattern of 524287.5, half of `2^20 - 1`.
pub const NOISE_SCALE_BITS: u64 = 0x411f_fffe_0000_0000;

/// The greatest level of a sample, `2^20 - 2`: the one level above it would
/// give the sample 1.
pub const NOISE_TOP_LEVEL: u64 = 0xf_fffe;

/// The state that follows `x`: `x * multiplier + increment` modulo `2^64`.
pub open spec fn lcg_next(x: u64) -> u64 {
    ((x * LCG_MULTIPLIER + LCG_INCREMENT) % 0x1_0000_0000_0000_0000) as u64
}

/// The 20 most significant bits of `x`.
pub open spec fn top_bits(x: u64) -> u64 {
    x / 0x1000_0000_0000
}

/// The sample for a bit of a maximal-length sequence: `2 bit - 1`, which is
/// -1 for 0 and +1 for 1.
pub open spec fn bipolar<T: Float>(bit: u32) -> T {
    T::from_int(bit as i64).product(T::from_int(2)).difference(T::from_int(1))
}

/// The level of a generator state: its top 20 bits, but for the one value
/// with all 20 bits set, which takes the level below it.
pub open spec fn noise_level(x: u64) -> u64 {
    if top_bits(x) > NOISE_TOP_LEVEL {
        NOISE_TOP_LEVEL
    } else {
        top_bits(x)
    }
}

/// The sample for a generator state: its level `k`, mapped to
/// `k / 524287.5 - 1`, which is -1 for 0 and less than 1 for the greatest
/// level.
pub open spec fn noise_sample<T: Float>(x: u64) -> T {
    T::from_int(noise_level(x) as i64).quotient(T::from_double(NOISE_SCALE_BITS)).difference(
        T::from_int(1),
    )
}

/// The level of a state is its top 20 bits unless all of them are set, and
/// the level is less than `2^20 - 1`, which is twice 524287.5: the level
/// over 524287.5, less one, is at least -1 and less than 1.
pub proof fn lemma_noise_level_range(x: u64)
    ensures
        top_bits(x) < 0x10_0000,
        top_bits(x) < 0xf_ffff ==> noise_level(x) == top_bits(x),
        top_bits(x) == 0xf_ffff ==> noise_level(x) == 0xf_fffe,
        0 <= noise_level(x) < 0xf_ffff,
{
}

/// What an MLS noise node holds: the register and the hash it is reseeded
/// from.
pub struct MlsNoiseState {
    pub mls: MlsState,
    pub hash: u32,
}

impl MlsNoiseState {
    /// The state after a reset: the register is reseeded from the hash.
    pub open spec fn cleared(self) -> Self {
        MlsNoiseState { mls: MlsState::seeded(self.mls.bits, self.hash), hash: self.hash }
    }

    /// The state after one sample.
    pub open spec fn stepped(self) -> Self {
        MlsNoiseState { mls: self.mls.stepped(), hash: self.hash }
    }
}

/// MLS noise component.
/// - Output 0: noise, each sample -1 or +1
pub struct MlsNoise<T> {
    _marker: PhantomData<T>,
    mls: Mls,
    hash: u32,
}

impl<T> Clone for MlsNoise<T> {
    fn clone(&self) -> (copy: Self)
        ensures
            copy == *self,
    {
        MlsNoise { _marker: PhantomData, mls: self.mls, hash: self.hash }
    }
}

impl<T> View for MlsNoise<T> {
    type V = MlsNoiseState;

    closed spec fn view(&self) -> MlsNoiseState {
        MlsNoiseState { mls: self.mls@, hash: self.hash }
    }
}

impl<T: Float> MlsNoise<T> {
    /// A noise node that starts from the given register, with hash zero.
    pub fn new(mls: Mls) -> (node: MlsNoise<T>)
        ensures
            node@ == (MlsNoiseState { mls: mls@, hash: 0 }),
            node@.mls.wf(),
    {
        proof {
            use_type_invariant(&mls);
        }
        MlsNoise { _marker: PhantomData, mls, hash: 0 }
    }

    /// Reseeds the register from the hash. The sample rate plays no part.
    pub fn reset<D: Float>(&mut self, sample_rate: Option<D>)
        ensures
            final(self)@ == old(self)@.cleared(),
            final(self)@.mls.wf(),
    {
        self.mls = Mls::new_with_seed(self.mls.bits(), self.hash);
    }

    /// The sample for the current bit of the sequence; the register then
    /// moves one step.
    pub fn tick(&mut self, input: &[T; 0]) -> (output: [T; 1])
        ensures
            final(self)@ == old(self)@.stepped(),
            final(self)@.mls.wf(),
            old(self)@.mls.value() <= 1,
            output[0] == bipolar::<T>(old(self)@.mls.value()),
    {
        let value: T = T::new(self.mls.value() as i64);
        self.mls = self.mls.next();
        [value.mul(T::new(2)).sub(T::new(1))]
    }

    /// Records the hash that the next reset seeds the register from.
    pub fn set_hash(&mut self, hash: u32)
        ensures
            final(self)@ == (MlsNoiseState { mls: old(self)@.mls, hash }),
            final(self)@.mls.wf(),
    {
        proof {
            use_type_invariant(&self.mls);
        }
        self.hash = hash;
    }
}

/// What a white noise node holds: the generator state and the hash it is
/// reseeded from.
pub struct NoiseNodeState {
    pub x: u64,
    pub hash: u32,
}

impl NoiseNodeState {
    /// The state after a reset: the generator state is the hash.
    pub open spec fn cleared(self) -> Self {
        NoiseNodeState { x: self.hash as u64, hash: self.hash }
    }

    /// The state after one sample.
    pub open spec fn stepped(self) -> Self {
        NoiseNodeState { x: lcg_next(self.x), hash: self.hash }
    }

    /// The state after `k` samples.
    pub open spec fn advanced(self, k: nat) -> Self
        decreases k,
    {
        if k == 0 {
            self
        } else {
            self.advanced((k - 1) as nat).stepped()
        }
    }
}

/// White noise component.
/// - Output 0: noise
pub struct NoiseNode<T> {
    _marker: PhantomData<T>,
    x: u64,
    hash: u32,
}

impl<T> Clone for NoiseNode<T> {
    fn clone(&self) -> (copy: Self)
        ensures
            copy == *self,
    {
        NoiseNode { _marker: PhantomData, x: self.x, hash: self.hash }
    }
}

impl<T> View for NoiseNode<T> {
    type V = NoiseNodeState;

    closed spec fn view(&self) -> NoiseNodeState {
        NoiseNodeState { x: self.x, hash: self.hash }
    }
}

impl<T: Float> NoiseNode<T> {
    /// A noise node with state and hash zero.
    pub fn new() -> (node: NoiseNode<T>)
        ensures
            node@ == (NoiseNodeState { x: 0, hash: 0 }),
    {
        NoiseNode { _marker: PhantomData, x: 0, hash: 0 }
    }

    /// Reseeds the generator with the hash. The sample rate plays no part.
    pub fn reset<D: Float>(&mut self, sample_rate: Option<D>)
        ensures
            final(self)@ == old(self)@.cleared(),
    {
        self.x = self.hash as u64;
    }

    /// Moves the generator one step and returns the sample for its new
    /// state.
    pub fn tick(&mut self, input: &[T; 0]) -> (output: [T; 1])
        ensures
            final(self)@ == old(self)@.stepped(),
            output[0] == noise_sample::<T>(final(self)@.x),
    {
        self.x = self.x.wrapping_mul(LCG_MULTIPLIER).wrapping_add(LCG_INCREMENT);
        let top: u64 = self.x >> 44;
        proof {
            lemma_shift_is_top_bits(self.x);
            lemma_lcg_wraps(old(self).x);
        }
        let level: u64 = if top > NOISE_TOP_LEVEL {
            NOISE_TOP_LEVEL
        } else {
            top
        };
        let value: T = T::new(level as i64).div(T::from_bits(NOISE_SCALE_BITS)).sub(T::new(1));
        [value]
    }

    /// Records the hash that the next reset seeds the generator with.
    pub fn set_hash(&mut self, hash: u32)
        ensures
            final(self)@ == (NoiseNodeState { x: old(self)@.x, hash }),
    {
        self.hash = hash;
    }
}

proof fn lemma_shift_is_top_bits(x: u64)
    by (bit_vector)
    ensures
        x >> 44 == x / 0x1000_0000_0000,
{
}

proof fn lemma_lcg_wraps(x: u64)
    ensures
        vstd::wrapping::u64_specs::wrapping_add(
            vstd::wrapping::u64_specs::wrapping_mul(x, LCG_MULTIPLIER),
            LCG_INCREMENT,
        ) == lcg_next(x),
{
    let m = 0x1_0000_0000_0000_0000int;
    let p = x as int * LCG_MULTIPLIER as int;
    vstd::arithmetic::div_mod::lemma_add_mod_noop(p, LCG_INCREMENT as int, m);
    vstd::arithmetic::div_mod::lemma_small_mod(LCG_INCREMENT as nat, m as nat);
}

/// Two nodes with the same hash produce the same samples after a reset:
/// after any number of ticks their generator states, and so their samples,
/// are equal.
pub proof fn lemma_reset_reproduces<T: Float>(a: NoiseNodeState, b: NoiseNodeState, k: nat)
    requires
        a.hash == b.hash,
    ensures
        a.cleared().advanced(k) == b.cleared().advanced(k),
        noise_sample::<T>(a.cleared().advanced(k).x) == noise_sample::<T>(
            b.cleared().advanced(k).x,
        ),
{
}

} // verus!
