//! Second-order recursive filters and the filters built on them.

use crate::numeric::{
    convert, converted, converted_rate, delerp, delerped, smooth9, smoothed9, Float, Real,
};
use core::marker::PhantomData;
use vstd::prelude::*;

verus! {

/// Double-precision bit pattern of pi.
pub const PI_BITS: u64 = 0x4009_21fb_5444_2d18;

/// Double-precision bit pattern of minus pi.
pub const NEG_PI_BITS: u64 = 0xc009_21fb_5444_2d18;

/// Double-precision bit pattern of two pi.
pub const TAU_BITS: u64 = 0x4019_21fb_5444_2d18;

/// Double-precision bit pattern of minus two pi.
pub const NEG_TAU_BITS: u64 = 0xc019_21fb_5444_2d18;

/// Double-precision bit pattern of the square root of two.
pub const SQRT_2_BITS: u64 = 0x3ff6_a09e_667f_3bcd;

/// Double-precision bit pattern of one half.
pub const HALF_BITS: u64 = 0x3fe0_0000_0000_0000;

/// Coefficients of the normalized second-order transfer function
/// `H(z) = (b0 + b1 z^-1 + b2 z^-2) / (1 + a1 z^-1 + a2 z^-2)`.
#[derive(Debug)]
pub struct BiquadCoefs<F> {
    pub a1: F,
    pub a2: F,
    pub b0: F,
    pub b1: F,
    pub b2: F,
}

impl<F: Copy> Clone for BiquadCoefs<F> {
    fn clone(&self) -> (copy: Self)
        ensures
            copy == *self,
    {
        *self
    }
}

impl<F: Copy> Copy for BiquadCoefs<F> {

}

/// Bilinear transform of the two-pole Butterworth lowpass with its -3 dB
/// point at `cutoff` Hz. With `f = tan(pi * cutoff / sample_rate)` and
/// `a0r = 1 / (1 + sqrt(2) f + f^2)`:
/// `a1 = (2 f^2 - 2) a0r`, `a2 = (1 - sqrt(2) f + f^2) a0r`,
/// `b0 = f^2 a0r`, `b1 = 2 b0`, `b2 = b0`.
pub open spec fn butter_lowpass_coefs<F: Real>(sample_rate: F, cutoff: F) -> BiquadCoefs<F> {
    let one = F::from_int(1);
    let two = F::from_int(2);
    let root2 = F::from_double(SQRT_2_BITS);
    let f = cutoff.product(F::from_double(PI_BITS)).quotient(sample_rate).tangent();
    let a0r = one.quotient(one.sum(root2.product(f)).sum(f.product(f)));
    let b0 = f.product(f).product(a0r);
    BiquadCoefs {
        a1: two.product(f).product(f).difference(two).product(a0r),
        a2: one.difference(root2.product(f)).sum(f.product(f)).product(a0r),
        b0,
        b1: two.product(b0),
        b2: b0,
    }
}

/// Constant-peak-gain bandpass. With `r = exp(-pi * bandwidth / sample_rate)`:
/// `a1 = -2 r cos(2 pi * center / sample_rate)`, `a2 = r^2`,
/// `b0 = sqrt(1 - r^2) / 2`, `b1 = 0`, `b2 = -b0`.
pub open spec fn resonator_coefs<F: Real>(sample_rate: F, center: F, bandwidth: F) -> BiquadCoefs<F> {
    let r = F::from_double(NEG_PI_BITS).product(bandwidth).quotient(sample_rate).exponential();
    let b0 = F::from_int(1).difference(r.product(r)).square_root().product(
        F::from_double(HALF_BITS),
    );
    BiquadCoefs {
        a1: F::from_int(-2i64).product(r).product(
            F::from_double(TAU_BITS).product(center).quotient(sample_rate).cosine(),
        ),
        a2: r.product(r),
        b0,
        b1: F::from_int(0),
        b2: b0.negation(),
    }
}

impl<F: Real> BiquadCoefs<F> {
    /// Returns settings for a Butterworth lowpass filter.
    /// Cutoff is the -3 dB point of the filter in Hz.
    pub fn butter_lowpass(sample_rate: F, cutoff: F) -> (coefs: BiquadCoefs<F>)
        ensures
            coefs == butter_lowpass_coefs(sample_rate, cutoff),
    {
        let one = F::new(1);
        let two = F::new(2);
        let root2 = F::from_bits(SQRT_2_BITS);
        let f: F = cutoff.mul(F::from_bits(PI_BITS)).div(sample_rate).tan();
        let a0r: F = one.div(one.add(root2.mul(f)).add(f.mul(f)));
        let a1: F = two.mul(f).mul(f).sub(two).mul(a0r);
        let a2: F = one.sub(root2.mul(f)).add(f.mul(f)).mul(a0r);
        let b0: F = f.mul(f).mul(a0r);
        let b1: F = two.mul(b0);
        let b2: F = b0;
        BiquadCoefs { a1, a2, b0, b1, b2 }
    }

    /// Returns settings for a constant-gain bandpass resonator.
    /// The center frequency is given in Hz.
    /// Bandwidth is the difference in Hz between -3 dB points of the filter
    /// response.
    pub fn resonator(sample_rate: F, center: F, bandwidth: F) -> (coefs: BiquadCoefs<F>)
        ensures
            coefs == resonator_coefs(sample_rate, center, bandwidth),
    {
        let r: F = F::from_bits(NEG_PI_BITS).mul(bandwidth).div(sample_rate).exp();
        let a1: F = F::new(-2).mul(r).mul(F::from_bits(TAU_BITS).mul(center).div(sample_rate).cos());
        let a2: F = r.mul(r);
        let b0: F = F::new(1).sub(r.mul(r)).sqrt().mul(F::from_bits(HALF_BITS));
        let b1: F = F::new(0);
        let b2: F = b0.neg();
        BiquadCoefs { a1, a2, b0, b1, b2 }
    }
}

/// What a biquad holds: its coefficients, the last two inputs `x1`, `x2` and
/// the last two outputs `y1`, `y2`.
pub struct BiquadState<F> {
    pub coefs: BiquadCoefs<F>,
    pub x1: F,
    pub x2: F,
    pub y1: F,
    pub y2: F,
}

impl<F: Float> BiquadState<F> {
    /// The output for input `x0`:
    /// `b0 x0 + b1 x1 + b2 x2 - a1 y1 - a2 y2`, summed from left to right.
    pub open spec fn output(self, x0: F) -> F {
        self.coefs.b0.product(x0).sum(self.coefs.b1.product(self.x1)).sum(
            self.coefs.b2.product(self.x2),
        ).difference(self.coefs.a1.product(self.y1)).difference(self.coefs.a2.product(self.y2))
    }

    /// The state after input `x0`: the registers shift by one sample.
    pub open spec fn stepped(self, x0: F) -> Self {
        BiquadState { coefs: self.coefs, x1: x0, x2: self.x1, y1: self.output(x0), y2: self.y1 }
    }

    /// The state of a new biquad: all coefficients and registers zero.
    pub open spec fn silent() -> Self {
        let zero = F::from_int(0);
        BiquadState {
            coefs: BiquadCoefs { a1: zero, a2: zero, b0: zero, b1: zero, b2: zero },
            x1: zero,
            x2: zero,
            y1: zero,
            y2: zero,
        }
    }

    /// The state with all four registers zero and the coefficients kept.
    pub open spec fn cleared(self) -> Self {
        let zero = F::from_int(0);
        BiquadState { coefs: self.coefs, x1: zero, x2: zero, y1: zero, y2: zero }
    }

    /// The state with the coefficients replaced and the registers kept.
    pub open spec fn with_coefs(self, coefs: BiquadCoefs<F>) -> Self {
        BiquadState { coefs, x1: self.x1, x2: self.x2, y1: self.y1, y2: self.y2 }
    }
}

/// 2nd order IIR filter implemented in normalized Direct Form I.
/// - Input 0: input signal
/// - Output 0: filtered signal
pub struct Biquad<T, F> {
    _marker: PhantomData<T>,
    coefs: BiquadCoefs<F>,
    x1: F,
    x2: F,
    y1: F,
    y2: F,
}

impl<T, F: Copy> Clone for Biquad<T, F> {
    fn clone(&self) -> (copy: Self)
        ensures
            copy == *self,
    {
        *self
    }
}

impl<T, F: Copy> Copy for Biquad<T, F> {

}

impl<T: Float, F: Real> Default for Biquad<T, F> {
    fn default() -> (node: Self)
        ensures
            node@ == BiquadState::<F>::silent(),
    {
        Biquad::new()
    }
}

impl<T, F> View for Biquad<T, F> {
    type V = BiquadState<F>;

    closed spec fn view(&self) -> BiquadState<F> {
        BiquadState { coefs: self.coefs, x1: self.x1, x2: self.x2, y1: self.y1, y2: self.y2 }
    }
}

impl<T: Float, F: Real> Biquad<T, F> {
    /// A biquad with all coefficients and registers zero.
    pub fn new() -> (node: Self)
        ensures
            node@ == BiquadState::<F>::silent(),
    {
        let zero = F::new(0);
        Biquad {
            _marker: PhantomData,
            coefs: BiquadCoefs { a1: zero, a2: zero, b0: zero, b1: zero, b2: zero },
            x1: zero,
            x2: zero,
            y1: zero,
            y2: zero,
        }
    }

    /// Replaces the coefficients; they take effect on the next tick.
    pub fn set_coefs(&mut self, coefs: BiquadCoefs<F>)
        ensures
            final(self)@ == old(self)@.with_coefs(coefs),
    {
        self.coefs = coefs;
    }

    /// Zeroes the four registers without touching the coefficients. The
    /// sample rate plays no part.
    pub fn reset<D: Float>(&mut self, sample_rate: Option<D>)
        ensures
            final(self)@ == old(self)@.cleared(),
    {
        self.x1 = F::new(0);
        self.x2 = F::new(0);
        self.y1 = F::new(0);
        self.y2 = F::new(0);
    }

    /// Filters one sample.
    pub fn tick(&mut self, input: &[T; 1]) -> (output: [T; 1])
        ensures
            final(self)@ == old(self)@.stepped(converted::<T, F>(input[0])),
            output[0] == converted::<F, T>(old(self)@.output(converted::<T, F>(input[0]))),
    {
        let x0: F = convert(input[0]);
        let y0: F = self.coefs.b0.mul(x0).add(self.coefs.b1.mul(self.x1)).add(
            self.coefs.b2.mul(self.x2),
        ).sub(self.coefs.a1.mul(self.y1)).sub(self.coefs.a2.mul(self.y2));
        self.x2 = self.x1;
        self.x1 = x0;
        self.y2 = self.y1;
        self.y1 = y0;
        [convert(y0)]
    }
}

/// What a Butterworth lowpass holds: its biquad, the sample rate, and the
/// cutoff for which the coefficients were last computed.
pub struct ButterLowpassState<F> {
    pub biquad: BiquadState<F>,
    pub sample_rate: F,
    pub cutoff: F,
}

impl<F: Real> ButterLowpassState<F> {
    /// The state once the control input `cutoff` has been seen: the
    /// coefficients are recomputed exactly when `cutoff` compares unequal to
    /// the cached value, which it then replaces.
    pub open spec fn tuned(self, cutoff: F) -> Self {
        if cutoff.differs(self.cutoff) {
            ButterLowpassState {
                biquad: self.biquad.with_coefs(butter_lowpass_coefs(self.sample_rate, cutoff)),
                sample_rate: self.sample_rate,
                cutoff,
            }
        } else {
            self
        }
    }

    /// The output for signal `x0` under control input `cutoff`.
    pub open spec fn output(self, x0: F, cutoff: F) -> F {
        self.tuned(cutoff).biquad.output(x0)
    }

    /// The state after signal `x0` under control input `cutoff`.
    pub open spec fn stepped(self, x0: F, cutoff: F) -> Self {
        let t = self.tuned(cutoff);
        ButterLowpassState {
            biquad: t.biquad.stepped(x0),
            sample_rate: t.sample_rate,
            cutoff: t.cutoff,
        }
    }

    /// The state of a new node at the given sample rate: a silent biquad
    /// and a cached cutoff of zero.
    pub open spec fn fresh(sample_rate: F) -> Self {
        ButterLowpassState {
            biquad: BiquadState::silent(),
            sample_rate,
            cutoff: F::from_int(0),
        }
    }

    /// The state after a reset: that of a new node, at the sample rate given
    /// or, where none is given, at the one bound before.
    pub open spec fn cleared(self, sample_rate: Option<F>) -> Self {
        Self::fresh(
            match sample_rate {
                Some(sr) => sr,
                None => self.sample_rate,
            },
        )
    }
}

/// Butterworth lowpass filter.
/// - Input 0: input signal
/// - Input 1: cutoff frequency (Hz)
/// - Output 0: filtered signal
pub struct ButterLowpass<T: Float, F: Real> {
    biquad: Biquad<T, F>,
    sample_rate: F,
    cutoff: F,
}

impl<T: Float, F: Real> Clone for ButterLowpass<T, F> {
    fn clone(&self) -> (copy: Self)
        ensures
            copy == *self,
    {
        *self
    }
}

impl<T: Float, F: Real> Copy for ButterLowpass<T, F> {

}

impl<T: Float, F: Real> View for ButterLowpass<T, F> {
    type V = ButterLowpassState<F>;

    closed spec fn view(&self) -> ButterLowpassState<F> {
        ButterLowpassState {
            biquad: self.biquad@,
            sample_rate: self.sample_rate,
            cutoff: self.cutoff,
        }
    }
}

impl<T: Float, F: Real> ButterLowpass<T, F> {
    /// A lowpass at the given sample rate, with a cached cutoff of zero.
    pub fn new(sample_rate: F) -> (node: Self)
        ensures
            node@ == ButterLowpassState::fresh(sample_rate),
    {
        ButterLowpass { biquad: Biquad::new(), sample_rate, cutoff: F::new(0) }
    }

    /// Puts the node into the state of a new one, and binds the sample rate
    /// where one is given.
    pub fn reset<D: Float>(&mut self, sample_rate: Option<D>)
        ensures
            final(self)@ == old(self)@.cleared(converted_rate::<D, F>(sample_rate)),
    {
        self.biquad = Biquad::new();
        if let Some(sr) = sample_rate {
            self.sample_rate = convert(sr);
        }
        self.cutoff = F::new(0);
    }

    /// Filters one sample of `input[0]` with the cutoff `input[1]`.
    pub fn tick(&mut self, input: &[T; 2]) -> (output: [T; 1])
        ensures
            final(self)@ == old(self)@.stepped(
                converted::<T, F>(input[0]),
                converted::<T, F>(input[1]),
            ),
            output[0] == converted::<F, T>(
                old(self)@.output(converted::<T, F>(input[0]), converted::<T, F>(input[1])),
            ),
    {
        let cutoff: F = convert(input[1]);
        if cutoff.ne(self.cutoff) {
            self.biquad.set_coefs(BiquadCoefs::butter_lowpass(self.sample_rate, cutoff));
            self.cutoff = cutoff;
        }
        self.biquad.tick(&[input[0]])
    }
}

/// What a resonator holds: its biquad, the sample rate, and the center and
/// bandwidth for which the coefficients were last computed.
pub struct ResonatorState<F> {
    pub biquad: BiquadState<F>,
    pub sample_rate: F,
    pub center: F,
    pub bandwidth: F,
}

impl<F: Real> ResonatorState<F> {
    /// The state once the control inputs have been seen: the coefficients
    /// are recomputed exactly when either compares unequal to its cached
    /// value, and both are then cached.
    pub open spec fn tuned(self, center: F, bandwidth: F) -> Self {
        if center.differs(self.center) || bandwidth.differs(self.bandwidth) {
            ResonatorState {
                biquad: self.biquad.with_coefs(
                    resonator_coefs(self.sample_rate, center, bandwidth),
                ),
                sample_rate: self.sample_rate,
                center,
                bandwidth,
            }
        } else {
            self
        }
    }

    /// The output for signal `x0` under the control inputs.
    pub open spec fn output(self, x0: F, center: F, bandwidth: F) -> F {
        self.tuned(center, bandwidth).biquad.output(x0)
    }

    /// The state after signal `x0` under the control inputs.
    pub open spec fn stepped(self, x0: F, center: F, bandwidth: F) -> Self {
        let t = self.tuned(center, bandwidth);
        ResonatorState {
            biquad: t.biquad.stepped(x0),
            sample_rate: t.sample_rate,
            center: t.center,
            bandwidth: t.bandwidth,
        }
    }

    /// The state of a new node at the given sample rate: a silent biquad
    /// and cached controls of zero.
    pub open spec fn fresh(sample_rate: F) -> Self {
        ResonatorState {
            biquad: BiquadState::silent(),
            sample_rate,
            center: F::from_int(0),
            bandwidth: F::from_int(0),
        }
    }

    /// The state after a reset: that of a new node, at the sample rate given
    /// or, where none is given, at the one bound before.
    pub open spec fn cleared(self, sample_rate: Option<F>) -> Self {
        Self::fresh(
            match sample_rate {
                Some(sr) => sr,
                None => self.sample_rate,
            },
        )
    }
}

/// Constant-gain bandpass filter (resonator).
/// Filter gain is (nearly) independent of bandwidth.
/// - Input 0: input signal
/// - Input 1: filter center frequency (peak) (Hz)
/// - Input 2: filter bandwidth (distance) between -3 dB points (Hz)
/// - Output 0: filtered signal
pub struct Resonator<T: Float, F: Real> {
    biquad: Biquad<T, F>,
    sample_rate: F,
    center: F,
    bandwidth: F,
}

impl<T: Float, F: Real> Clone for Resonator<T, F> {
    fn clone(&self) -> (copy: Self)
        ensures
            copy == *self,
    {
        *self
    }
}

impl<T: Float, F: Real> Copy for Resonator<T, F> {

}

impl<T: Float, F: Real> View for Resonator<T, F> {
    type V = ResonatorState<F>;

    closed spec fn view(&self) -> ResonatorState<F> {
        ResonatorState {
            biquad: self.biquad@,
            sample_rate: self.sample_rate,
            center: self.center,
            bandwidth: self.bandwidth,
        }
    }
}

impl<T: Float, F: Real> Resonator<T, F> {
    /// A resonator at the given sample rate, with cached controls of zero.
    pub fn new(sample_rate: F) -> (node: Self)
        ensures
            node@ == ResonatorState::fresh(sample_rate),
    {
        Resonator { biquad: Biquad::new(), sample_rate, center: F::new(0), bandwidth: F::new(0) }
    }

    /// Puts the node into the state of a new one, and binds the sample rate
    /// where one is given.
    pub fn reset<D: Float>(&mut self, sample_rate: Option<D>)
        ensures
            final(self)@ == old(self)@.cleared(converted_rate::<D, F>(sample_rate)),
    {
        self.biquad = Biquad::new();
        if let Some(sr) = sample_rate {
            self.sample_rate = convert(sr);
        }
        self.center = F::new(0);
        self.bandwidth = F::new(0);
    }

    /// Filters one sample of `input[0]` with center `input[1]` and
    /// bandwidth `input[2]`.
    pub fn tick(&mut self, input: &[T; 3]) -> (output: [T; 1])
        ensures
            final(self)@ == old(self)@.stepped(
                converted::<T, F>(input[0]),
                converted::<T, F>(input[1]),
                converted::<T, F>(input[2]),
            ),
            output[0] == converted::<F, T>(
                old(self)@.output(
                    converted::<T, F>(input[0]),
                    converted::<T, F>(input[1]),
                    converted::<T, F>(input[2]),
                ),
            ),
    {
        let center: F = convert(input[1]);
        let bandwidth: F = convert(input[2]);
        if center.ne(self.center) || bandwidth.ne(self.bandwidth) {
            self.biquad.set_coefs(BiquadCoefs::resonator(self.sample_rate, center, bandwidth));
            self.center = center;
            self.bandwidth = bandwidth;
        }
        self.biquad.tick(&[input[0]])
    }
}

/// What a one-pole lowpass holds: the last output `value`, the feedback
/// coefficient, the cutoff for which it was computed, and the sample rate.
pub struct OnePoleLowpassState<F> {
    pub value: F,
    pub coeff: F,
    pub cutoff: F,
    pub sample_rate: F,
}

/// Feedback coefficient of the one-pole lowpass:
/// `exp(-2 pi * cutoff / sample_rate)`.
pub open spec fn one_pole_coeff<F: Real>(sample_rate: F, cutoff: F) -> F {
    F::from_double(NEG_TAU_BITS).product(cutoff).quotient(sample_rate).exponential()
}

impl<F: Real> OnePoleLowpassState<F> {
    /// The state once the control input `cutoff` has been seen: the
    /// coefficient is recomputed exactly when `cutoff` compares unequal to the
    /// cached value, which it then replaces.
    pub open spec fn tuned(self, cutoff: F) -> Self {
        if cutoff.differs(self.cutoff) {
            OnePoleLowpassState {
                value: self.value,
                coeff: one_pole_coeff(self.sample_rate, cutoff),
                cutoff,
                sample_rate: self.sample_rate,
            }
        } else {
            self
        }
    }

    /// The output for signal `x` under control input `cutoff`:
    /// `(1 - coeff) x + coeff * value`.
    pub open spec fn output(self, x: F, cutoff: F) -> F {
        let t = self.tuned(cutoff);
        F::from_int(1).difference(t.coeff).product(x).sum(t.coeff.product(t.value))
    }

    /// The state after signal `x` under control input `cutoff`.
    pub open spec fn stepped(self, x: F, cutoff: F) -> Self {
        let t = self.tuned(cutoff);
        OnePoleLowpassState {
            value: self.output(x, cutoff),
            coeff: t.coeff,
            cutoff: t.cutoff,
            sample_rate: t.sample_rate,
        }
    }

    /// The state of a new node at the given sample rate: the value is zero,
    /// the cached cutoff is zero, and the coefficient is the one that belongs
    /// to that cutoff, `exp(0)`.
    pub open spec fn fresh(sample_rate: F) -> Self {
        OnePoleLowpassState {
            value: F::from_int(0),
            coeff: one_pole_coeff(sample_rate, F::from_int(0)),
            cutoff: F::from_int(0),
            sample_rate,
        }
    }

    /// The state after a reset: that of a new node, at the sample rate given
    /// or, where none is given, at the one bound before.
    pub open spec fn cleared(self, sample_rate: Option<F>) -> Self {
        Self::fresh(
            match sample_rate {
                Some(sr) => sr,
                None => self.sample_rate,
            },
        )
    }
}

/// Computes the feedback coefficient of the one-pole lowpass.
fn one_pole_coefficient<F: Real>(sample_rate: F, cutoff: F) -> (coeff: F)
    ensures
        coeff == one_pole_coeff(sample_rate, cutoff),
{
    F::from_bits(NEG_TAU_BITS).mul(cutoff).div(sample_rate).exp()
}

/// One-pole lowpass filter.
/// - Input 0: input signal
/// - Input 1: cutoff frequency (Hz)
/// - Output 0: filtered signal
pub struct OnePoleLowpass<T: Float, F: Real> {
    _marker: PhantomData<T>,
    value: F,
    coeff: F,
    cutoff: F,
    sample_rate: F,
}

impl<T: Float, F: Real> Clone for OnePoleLowpass<T, F> {
    fn clone(&self) -> (copy: Self)
        ensures
            copy == *self,
    {
        *self
    }
}

impl<T: Float, F: Real> Copy for OnePoleLowpass<T, F> {

}

impl<T: Float, F: Real> Default for OnePoleLowpass<T, F> {
    /// A node with every field zero.
    fn default() -> (node: Self)
        ensures
            node@ == (OnePoleLowpassState {
                value: F::from_int(0),
                coeff: F::from_int(0),
                cutoff: F::from_int(0),
                sample_rate: F::from_int(0),
            }),
    {
        OnePoleLowpass {
            _marker: PhantomData,
            value: F::new(0),
            coeff: F::new(0),
            cutoff: F::new(0),
            sample_rate: F::new(0),
        }
    }
}

impl<T: Float, F: Real> View for OnePoleLowpass<T, F> {
    type V = OnePoleLowpassState<F>;

    closed spec fn view(&self) -> OnePoleLowpassState<F> {
        OnePoleLowpassState {
            value: self.value,
            coeff: self.coeff,
            cutoff: self.cutoff,
            sample_rate: self.sample_rate,
        }
    }
}

impl<T: Float, F: Real> OnePoleLowpass<T, F> {
    /// A lowpass at the given sample rate, with a value of zero, a cached
    /// cutoff of zero and the coefficient that belongs to it.
    pub fn new<D: Float>(sample_rate: D) -> (node: Self)
        ensures
            node@ == OnePoleLowpassState::fresh(converted::<D, F>(sample_rate)),
    {
        let rate: F = convert(sample_rate);
        OnePoleLowpass {
            _marker: PhantomData,
            value: F::new(0),
            coeff: one_pole_coefficient(rate, F::new(0)),
            cutoff: F::new(0),
            sample_rate: rate,
        }
    }

    /// Puts the node into the state of a new one, and binds the sample rate
    /// where one is given.
    pub fn reset<D: Float>(&mut self, sample_rate: Option<D>)
        ensures
            final(self)@ == old(self)@.cleared(converted_rate::<D, F>(sample_rate)),
    {
        if let Some(sr) = sample_rate {
            self.sample_rate = convert(sr);
        }
        self.cutoff = F::new(0);
        self.coeff = one_pole_coefficient(self.sample_rate, F::new(0));
        self.value = F::new(0);
    }

    /// Filters one sample of `input[0]` with the cutoff `input[1]`.
    pub fn tick(&mut self, input: &[T; 2]) -> (output: [T; 1])
        ensures
            final(self)@ == old(self)@.stepped(
                converted::<T, F>(input[0]),
                converted::<T, F>(input[1]),
            ),
            output[0] == converted::<F, T>(
                old(self)@.output(converted::<T, F>(input[0]), converted::<T, F>(input[1])),
            ),
    {
        let cutoff: F = convert(input[1]);
        if cutoff.ne(self.cutoff) {
            self.cutoff = cutoff;
            self.coeff = one_pole_coefficient(self.sample_rate, cutoff);
        }
        let x: F = convert(input[0]);
        self.value = F::new(1).sub(self.coeff).mul(x).add(self.coeff.mul(self.value));
        [convert(self.value)]
    }
}

/// What a DC blocker holds: the last input `x1`, the last output `y1`, the
/// cutoff fixed at construction, and the feedback coefficient.
pub struct DCBlockerState<F> {
    pub x1: F,
    pub y1: F,
    pub cutoff: F,
    pub coeff: F,
}

/// Feedback coefficient of the DC blocker:
/// `1 - (2 pi / sample_rate) * cutoff`, where the quotient is taken in the
/// type of the sample rate.
pub open spec fn dc_blocker_coeff<D: Real, F: Real>(sample_rate: D, cutoff: F) -> F {
    F::from_int(1).difference(
        converted::<D, F>(D::from_double(TAU_BITS).quotient(sample_rate)).product(cutoff),
    )
}

impl<F: Real> DCBlockerState<F> {
    /// The output for input `x`: `x - x1 + coeff * y1`.
    pub open spec fn output(self, x: F) -> F {
        x.difference(self.x1).sum(self.coeff.product(self.y1))
    }

    /// The state after input `x`.
    pub open spec fn stepped(self, x: F) -> Self {
        DCBlockerState { x1: x, y1: self.output(x), cutoff: self.cutoff, coeff: self.coeff }
    }

    /// The state of a new node with the given cutoff at the given sample
    /// rate: both registers zero.
    pub open spec fn fresh<D: Real>(sample_rate: D, cutoff: F) -> Self {
        DCBlockerState {
            x1: F::from_int(0),
            y1: F::from_int(0),
            cutoff,
            coeff: dc_blocker_coeff(sample_rate, cutoff),
        }
    }

    /// The state after a reset: both registers zero, and the coefficient
    /// recomputed where a sample rate is given.
    pub open spec fn cleared<D: Real>(self, sample_rate: Option<D>) -> Self {
        DCBlockerState {
            x1: F::from_int(0),
            y1: F::from_int(0),
            cutoff: self.cutoff,
            coeff: match sample_rate {
                Some(sr) => dc_blocker_coeff(sr, self.cutoff),
                None => self.coeff,
            },
        }
    }
}

/// DC blocking filter.
/// - Input 0: input signal
/// - Output 0: zero centered signal
pub struct DCBlocker<T: Float, F: Real> {
    _marker: PhantomData<T>,
    x1: F,
    y1: F,
    cutoff: F,
    coeff: F,
}

impl<T: Float, F: Real> Clone for DCBlocker<T, F> {
    fn clone(&self) -> (copy: Self)
        ensures
            copy == *self,
    {
        *self
    }
}

impl<T: Float, F: Real> Copy for DCBlocker<T, F> {

}

impl<T: Float, F: Real> Default for DCBlocker<T, F> {
    /// A node with every field zero.
    fn default() -> (node: Self)
        ensures
            node@ == (DCBlockerState {
                x1: F::from_int(0),
                y1: F::from_int(0),
                cutoff: F::from_int(0),
                coeff: F::from_int(0),
            }),
    {
        DCBlocker {
            _marker: PhantomData,
            x1: F::new(0),
            y1: F::new(0),
            cutoff: F::new(0),
            coeff: F::new(0),
        }
    }
}

impl<T: Float, F: Real> View for DCBlocker<T, F> {
    type V = DCBlockerState<F>;

    closed spec fn view(&self) -> DCBlockerState<F> {
        DCBlockerState { x1: self.x1, y1: self.y1, cutoff: self.cutoff, coeff: self.coeff }
    }
}

impl<T: Float, F: Real> DCBlocker<T, F> {
    /// A DC blocker with the given cutoff, reset at the given sample rate.
    pub fn new<D: Real>(sample_rate: D, cutoff: F) -> (node: Self)
        ensures
            node@ == DCBlockerState::fresh(sample_rate, cutoff),
    {
        let mut node: DCBlocker<T, F> = Default::default();
        node.cutoff = cutoff;
        node.reset(Some(sample_rate));
        node
    }

    /// Zeroes both registers; where a sample rate is given, recomputes the
    /// coefficient from it.
    pub fn reset<D: Real>(&mut self, sample_rate: Option<D>)
        ensures
            final(self)@ == old(self)@.cleared(sample_rate),
    {
        if let Some(sr) = sample_rate {
            self.coeff = F::new(1).sub(
                convert::<D, F>(D::from_bits(TAU_BITS).div(sr)).mul(self.cutoff),
            );
        }
        self.x1 = F::new(0);
        self.y1 = F::new(0);
    }

    /// Filters one sample.
    pub fn tick(&mut self, input: &[T; 1]) -> (output: [T; 1])
        ensures
            final(self)@ == old(self)@.stepped(converted::<T, F>(input[0])),
            output[0] == converted::<F, T>(old(self)@.output(converted::<T, F>(input[0]))),
    {
        let x: F = convert(input[0]);
        let y0: F = x.sub(self.x1).add(self.coeff.mul(self.y1));
        self.x1 = x;
        self.y1 = y0;
        [convert(y0)]
    }
}

/// The time that one sample takes at a sample rate: `1 / sample_rate`,
/// where the quotient is taken in the type of the sample rate.
pub open spec fn sample_duration_at<D: Real, F: Float>(sample_rate: D) -> F {
    converted::<D, F>(D::from_int(1).quotient(sample_rate))
}

/// What a declicker holds: the time `t` since the last reset, the length of
/// the fade, and the time that one sample takes, all in seconds.
pub struct DeclickerState<F> {
    pub t: F,
    pub duration: F,
    pub sample_duration: F,
}

impl<F: Real> DeclickerState<F> {
    /// Whether the fade is still under way: `t < duration`.
    pub open spec fn fading(self) -> bool {
        self.t.less(self.duration)
    }

    /// The gain of the fade at time `t`: the smoothstep of `t / duration`.
    pub open spec fn gain(self) -> F {
        smoothed9(delerped(F::from_int(0), self.duration, self.t))
    }

    /// The state after one sample: time advances by one sample while the
    /// fade is under way, and stands still after it.
    pub open spec fn stepped(self) -> Self {
        if self.fading() {
            DeclickerState {
                t: self.t.sum(self.sample_duration),
                duration: self.duration,
                sample_duration: self.sample_duration,
            }
        } else {
            self
        }
    }

    /// The state after `k` samples.
    pub open spec fn advanced(self, k: nat) -> Self
        decreases k,
    {
        if k == 0 {
            self
        } else {
            self.advanced((k - 1) as nat).stepped()
        }
    }

    /// The state of a new node with a fade of `duration` seconds at the
    /// given sample rate: time is zero.
    pub open spec fn fresh<D: Real>(sample_rate: D, duration: F) -> Self {
        DeclickerState {
            t: F::from_int(0),
            duration,
            sample_duration: sample_duration_at::<D, F>(sample_rate),
        }
    }

    /// The state after a reset: time is zero, and the sample duration is
    /// `1 / sample_rate` where a sample rate is given.
    pub open spec fn cleared<D: Real>(self, sample_rate: Option<D>) -> Self {
        DeclickerState {
            t: F::from_int(0),
            duration: self.duration,
            sample_duration: match sample_rate {
                Some(sr) => sample_duration_at::<D, F>(sr),
                None => self.sample_duration,
            },
        }
    }
}

/// Transient filter. Multiply the signal with a fade-in curve.
/// After fade-in, pass signal through.
/// - Input 0: input signal
/// - Output 0: filtered signal
pub struct Declicker<T: Float, F: Real> {
    _marker: PhantomData<T>,
    t: F,
    duration: F,
    sample_duration: F,
}

impl<T: Float, F: Real> Clone for Declicker<T, F> {
    fn clone(&self) -> (copy: Self)
        ensures
            copy == *self,
    {
        *self
    }
}

impl<T: Float, F: Real> Copy for Declicker<T, F> {

}

impl<T: Float, F: Real> Default for Declicker<T, F> {
    /// A node with every field zero.
    fn default() -> (node: Self)
        ensures
            node@ == (DeclickerState {
                t: F::from_int(0),
                duration: F::from_int(0),
                sample_duration: F::from_int(0),
            }),
    {
        Declicker {
            _marker: PhantomData,
            t: F::new(0),
            duration: F::new(0),
            sample_duration: F::new(0),
        }
    }
}

impl<T: Float, F: Real> View for Declicker<T, F> {
    type V = DeclickerState<F>;

    closed spec fn view(&self) -> DeclickerState<F> {
        DeclickerState { t: self.t, duration: self.duration, sample_duration: self.sample_duration }
    }
}

impl<T: Float, F: Real> Declicker<T, F> {
    /// A declicker with a fade of `duration` seconds, reset at the given
    /// sample rate.
    pub fn new<D: Real>(sample_rate: D, duration: F) -> (node: Self)
        ensures
            node@ == DeclickerState::fresh(sample_rate, duration),
    {
        let mut node: Declicker<T, F> = Default::default();
        node.duration = duration;
        node.reset(Some(sample_rate));
        node
    }

    /// Starts the fade again; where a sample rate is given, binds the sample
    /// duration to it.
    pub fn reset<D: Real>(&mut self, sample_rate: Option<D>)
        ensures
            final(self)@ == old(self)@.cleared(sample_rate),
    {
        if let Some(sr) = sample_rate {
            self.sample_duration = convert(D::new(1).div(sr));
        }
        self.t = F::new(0);
    }

    /// Fades one sample: while the fade is under way the input is multiplied
    /// by the gain; after it the input passes through unchanged.
    pub fn tick(&mut self, input: &[T; 1]) -> (output: [T; 1])
        ensures
            final(self)@ == old(self)@.stepped(),
            old(self)@.fading() ==> output[0] == input[0].product(
                converted::<F, T>(old(self)@.gain()),
            ),
            !old(self)@.fading() ==> output[0] == input[0],
    {
        if self.t.lt(self.duration) {
            let phase: F = delerp(F::new(0), self.duration, self.t);
            let value: F = smooth9(phase);
            self.t = self.t.add(self.sample_duration);
            [input[0].mul(convert(value))]
        } else {
            [input[0]]
        }
    }
}

/// Once the fade is over, it stays over: time stands still, so every later
/// sample passes through unchanged.
pub proof fn lemma_fade_stays_over<F: Real>(state: DeclickerState<F>, k: nat)
    requires
        !state.fading(),
    ensures
        state.advanced(k) == state,
        !state.advanced(k).fading(),
    decreases k,
{
    if k > 0 {
        lemma_fade_stays_over(state, (k - 1) as nat);
    }
}

/// After a reset a filter that keeps a cached control is in the state of a
/// new one at the bound sample rate, whatever it held before; so are a DC
/// blocker and a declicker after a reset that gives a sample rate.
pub proof fn lemma_reset_is_new<D: Real, F: Real>(
    lowpass: ButterLowpassState<F>,
    resonator: ResonatorState<F>,
    one_pole: OnePoleLowpassState<F>,
    blocker: DCBlockerState<F>,
    declicker: DeclickerState<F>,
    rate: F,
    sample_rate: D,
)
    ensures
        lowpass.cleared(Some(rate)) == ButterLowpassState::fresh(rate),
        resonator.cleared(Some(rate)) == ResonatorState::fresh(rate),
        one_pole.cleared(Some(rate)) == OnePoleLowpassState::fresh(rate),
        lowpass.cleared(None) == ButterLowpassState::fresh(lowpass.sample_rate),
        resonator.cleared(None) == ResonatorState::fresh(resonator.sample_rate),
        one_pole.cleared(None) == OnePoleLowpassState::fresh(one_pole.sample_rate),
        blocker.cleared(Some(sample_rate)) == DCBlockerState::fresh(sample_rate, blocker.cutoff),
        declicker.cleared(Some(sample_rate)) == DeclickerState::fresh(
            sample_rate,
            declicker.duration,
        ),
{
}

} // verus!
