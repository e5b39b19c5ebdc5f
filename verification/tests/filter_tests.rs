use dsp_nodes::filter::{
    Biquad, BiquadCoefs, ButterLowpass, DCBlocker, Declicker, OnePoleLowpass, Resonator,
};
use dsp_nodes::numeric::{convert, delerp, smooth9, Float, Real};
use num_complex::Complex64;
use std::f64::consts::{PI, SQRT_2, TAU};
use std::sync::atomic::{AtomicUsize, Ordering};

static TAN_CALLS: AtomicUsize = AtomicUsize::new(0);

#[derive(Copy, Clone, Debug, PartialEq)]
struct F64(f64);

#[derive(Copy, Clone, Debug, PartialEq)]
struct F32(f32);

impl Float for F64 {
    fn from_int(n: i64) -> Self {
        Self::new(n)
    }
    fn from_double(b: u64) -> Self {
        Self::from_bits(b)
    }
    fn double(self) -> u64 {
        self.to_bits()
    }
    fn sum(self, rhs: Self) -> Self {
        self.add(rhs)
    }
    fn difference(self, rhs: Self) -> Self {
        self.sub(rhs)
    }
    fn product(self, rhs: Self) -> Self {
        self.mul(rhs)
    }
    fn quotient(self, rhs: Self) -> Self {
        self.div(rhs)
    }
    fn negation(self) -> Self {
        self.neg()
    }
    fn less(self, rhs: Self) -> bool {
        self.lt(rhs)
    }
    fn differs(self, rhs: Self) -> bool {
        self.ne(rhs)
    }
    fn new(n: i64) -> Self {
        F64(n as f64)
    }
    fn from_bits(b: u64) -> Self {
        F64(f64::from_bits(b))
    }
    fn to_bits(self) -> u64 {
        self.0.to_bits()
    }
    fn add(self, rhs: Self) -> Self {
        F64(self.0 + rhs.0)
    }
    fn sub(self, rhs: Self) -> Self {
        F64(self.0 - rhs.0)
    }
    fn mul(self, rhs: Self) -> Self {
        F64(self.0 * rhs.0)
    }
    fn div(self, rhs: Self) -> Self {
        F64(self.0 / rhs.0)
    }
    fn neg(self) -> Self {
        F64(-self.0)
    }
    fn lt(self, rhs: Self) -> bool {
        self.0 < rhs.0
    }
    fn ne(self, rhs: Self) -> bool {
        self.0 != rhs.0
    }
}

impl Real for F64 {
    fn square_root(self) -> Self {
        self.sqrt()
    }
    fn exponential(self) -> Self {
        self.exp()
    }
    fn sine(self) -> Self {
        self.sin()
    }
    fn cosine(self) -> Self {
        self.cos()
    }
    fn tangent(self) -> Self {
        self.tan()
    }
    fn sqrt(self) -> Self {
        F64(self.0.sqrt())
    }
    fn exp(self) -> Self {
        F64(self.0.exp())
    }
    fn sin(self) -> Self {
        F64(self.0.sin())
    }
    fn cos(self) -> Self {
        F64(self.0.cos())
    }
    fn tan(self) -> Self {
        TAN_CALLS.fetch_add(1, Ordering::SeqCst);
        F64(self.0.tan())
    }
}

impl Float for F32 {
    fn from_int(n: i64) -> Self {
        Self::new(n)
    }
    fn from_double(b: u64) -> Self {
        Self::from_bits(b)
    }
    fn double(self) -> u64 {
        self.to_bits()
    }
    fn sum(self, rhs: Self) -> Self {
        self.add(rhs)
    }
    fn difference(self, rhs: Self) -> Self {
        self.sub(rhs)
    }
    fn product(self, rhs: Self) -> Self {
        self.mul(rhs)
    }
    fn quotient(self, rhs: Self) -> Self {
        self.div(rhs)
    }
    fn negation(self) -> Self {
        self.neg()
    }
    fn less(self, rhs: Self) -> bool {
        self.lt(rhs)
    }
    fn differs(self, rhs: Self) -> bool {
        self.ne(rhs)
    }
    fn new(n: i64) -> Self {
        F32(n as f32)
    }
    fn from_bits(b: u64) -> Self {
        F32(f64::from_bits(b) as f32)
    }
    fn to_bits(self) -> u64 {
        (self.0 as f64).to_bits()
    }
    fn add(self, rhs: Self) -> Self {
        F32(self.0 + rhs.0)
    }
    fn sub(self, rhs: Self) -> Self {
        F32(self.0 - rhs.0)
    }
    fn mul(self, rhs: Self) -> Self {
        F32(self.0 * rhs.0)
    }
    fn div(self, rhs: Self) -> Self {
        F32(self.0 / rhs.0)
    }
    fn neg(self) -> Self {
        F32(-self.0)
    }
    fn lt(self, rhs: Self) -> bool {
        self.0 < rhs.0
    }
    fn ne(self, rhs: Self) -> bool {
        self.0 != rhs.0
    }
}

fn response(c: &BiquadCoefs<F64>, omega: f64) -> Complex64 {
    let e1 = Complex64::from_polar(1.0, -TAU * omega);
    let e2 = Complex64::from_polar(1.0, -2.0 * TAU * omega);
    let re = |x: F64| Complex64::new(x.0, 0.0);
    (re(c.b0) + re(c.b1) * e1 + re(c.b2) * e2) / (re(F64(1.0)) + re(c.a1) * e1 + re(c.a2) * e2)
}

fn db(gain: f64) -> f64 {
    20.0 * gain.log10()
}

fn close(a: f64, b: f64, tolerance: f64) -> bool {
    (a - b).abs() <= tolerance
}

#[test]
fn convert_between_precisions_goes_through_double() {
    let x = F32(0.1);
    let y: F64 = convert(x);
    assert_eq!(y.0, 0.1f32 as f64);
    let back: F32 = convert(y);
    assert_eq!(back, x);
    let z: F32 = convert(F64(0.1));
    assert_eq!(z.0, 0.1f64 as f32);
}

#[test]
fn delerp_and_smooth9_have_their_exact_values() {
    assert_eq!(delerp(F64(2.0), F64(6.0), F64(3.0)).0, 0.25);
    assert_eq!(delerp(F64(0.0), F64(4.0), F64(4.0)).0, 1.0);
    assert_eq!(smooth9(F64(0.0)).0, 0.0);
    assert_eq!(smooth9(F64(1.0)).0, 1.0);
    assert_eq!(smooth9(F64(0.5)).0, 0.5);
    let x = 0.3f64;
    let x2 = x * x;
    let expected = ((((70.0 * x - 315.0) * x + 540.0) * x - 420.0) * x + 126.0) * x2 * x2 * x;
    assert_eq!(smooth9(F64(x)).0, expected);
}

#[test]
fn butter_lowpass_follows_the_bilinear_formula() {
    let (sr, fc) = (44100.0f64, 1000.0f64);
    let c = BiquadCoefs::butter_lowpass(F64(sr), F64(fc));
    let f = (fc * PI / sr).tan();
    let a0r = 1.0 / (1.0 + SQRT_2 * f + f * f);
    assert_eq!(c.a1.0, (2.0 * f * f - 2.0) * a0r);
    assert_eq!(c.a2.0, (1.0 - SQRT_2 * f + f * f) * a0r);
    assert_eq!(c.b0.0, f * f * a0r);
    assert_eq!(c.b1.0, 2.0 * (f * f * a0r));
    assert_eq!(c.b2.0, c.b0.0);
    assert!(close(c.a1.0, -1.7990964094846682, 1e-12));
    assert!(close(c.a2.0, 0.817512403384758, 1e-12));
    assert!(close(c.b0.0, 0.004603998475022464, 1e-12));
    assert!(close(c.b1.0, 0.009207996950044928, 1e-12));
}

#[test]
fn butter_lowpass_has_unity_gain_at_dc_and_minus_3_db_at_cutoff() {
    for &fc in &[100.0f64, 1000.0, 5000.0, 10000.0] {
        let c = BiquadCoefs::butter_lowpass(F64(44100.0), F64(fc));
        assert!(close(response(&c, 0.0).norm(), 1.0, 1e-9));
        assert!(close(db(response(&c, fc / 44100.0).norm()), -3.0103, 1e-3));
        assert!(response(&c, 0.5).norm() < 1e-9);
    }
}

#[test]
fn resonator_follows_its_formula() {
    let (sr, center, bw) = (44100.0f64, 1000.0f64, 100.0f64);
    let c = BiquadCoefs::resonator(F64(sr), F64(center), F64(bw));
    let r = (-PI * bw / sr).exp();
    assert_eq!(c.a1.0, -2.0 * r * (TAU * center / sr).cos());
    assert_eq!(c.a2.0, r * r);
    assert_eq!(c.b0.0, (1.0 - r * r).sqrt() * 0.5);
    assert_eq!(c.b1.0, 0.0);
    assert_eq!(c.b2.0, -c.b0.0);
    assert!(close(c.a1.0, -1.9656818390206368, 1e-12));
    assert!(close(c.a2.0, 0.9858534308027079, 1e-12));
    assert!(close(c.b0.0, 0.05946967546004449, 1e-12));
}

#[test]
fn resonator_peaks_at_center_whatever_the_bandwidth() {
    let sr = 44100.0f64;
    let center = 1000.0f64;
    for &bw in &[10.0f64, 50.0, 100.0] {
        let c = BiquadCoefs::resonator(F64(sr), F64(center), F64(bw));
        let at_center = response(&c, center / sr).norm();
        let mut peak = 0.0f64;
        let mut peak_at = 0.0f64;
        let mut f = 900.0f64;
        while f <= 1100.0 {
            let g = response(&c, f / sr).norm();
            if g > peak {
                peak = g;
                peak_at = f;
            }
            f += 0.05;
        }
        assert!(close(peak_at, center, 2.0));
        assert!(close(db(at_center / peak), 0.0, 0.01));
        let low = response(&c, (center - bw / 2.0) / sr).norm();
        let high = response(&c, (center + bw / 2.0) / sr).norm();
        assert!(close(db(low / at_center), -3.0, 0.3));
        assert!(close(db(high / at_center), -3.0, 0.3));
    }
}

#[test]
fn biquad_runs_the_direct_form_recurrence() {
    let coefs = BiquadCoefs::butter_lowpass(F64(48000.0), F64(2000.0));
    let mut node: Biquad<F32, F64> = Biquad::new();
    node.set_coefs(coefs);
    let (mut x1, mut x2, mut y1, mut y2) = (0.0f64, 0.0f64, 0.0f64, 0.0f64);
    for i in 0..200 {
        let x = ((i * 37 % 17) as f32 - 8.0) / 8.0;
        let out = node.tick(&[F32(x)]);
        let x0 = x as f64;
        let y0 = coefs.b0.0 * x0 + coefs.b1.0 * x1 + coefs.b2.0 * x2
            - coefs.a1.0 * y1
            - coefs.a2.0 * y2;
        x2 = x1;
        x1 = x0;
        y2 = y1;
        y1 = y0;
        assert_eq!(out[0].0, y0 as f32);
    }
}

#[test]
fn new_biquad_is_silent() {
    let mut node: Biquad<F64, F64> = Biquad::new();
    for _ in 0..10 {
        assert_eq!(node.tick(&[F64(1.0)])[0].0, 0.0);
    }
}

#[test]
fn biquad_reset_zeroes_the_registers_and_keeps_the_coefficients() {
    let coefs = BiquadCoefs::butter_lowpass(F64(48000.0), F64(2000.0));
    let mut node: Biquad<F64, F64> = Biquad::new();
    node.set_coefs(coefs);
    let mut first = Vec::new();
    for i in 0..50 {
        first.push(node.tick(&[F64(i as f64)])[0].0);
    }
    node.reset(None::<F64>);
    for i in 0..50 {
        assert_eq!(node.tick(&[F64(i as f64)])[0].0, first[i]);
    }
    assert_eq!(first[0], coefs.b0.0 * 0.0);
    assert_eq!(first[1], coefs.b0.0 * 1.0 + coefs.b1.0 * 0.0 + coefs.b2.0 * 0.0 - coefs.a1.0 * 0.0 - coefs.a2.0 * 0.0);
}

#[test]
fn set_coefs_takes_effect_on_the_next_tick_and_keeps_the_registers() {
    let a = BiquadCoefs::butter_lowpass(F64(48000.0), F64(2000.0));
    let b = BiquadCoefs::resonator(F64(48000.0), F64(500.0), F64(50.0));
    let mut node: Biquad<F64, F64> = Biquad::new();
    node.set_coefs(a);
    let y0 = node.tick(&[F64(1.0)])[0].0;
    let y1 = node.tick(&[F64(0.5)])[0].0;
    node.set_coefs(b);
    let y2 = node.tick(&[F64(0.25)])[0].0;
    let expected = b.b0.0 * 0.25 + b.b1.0 * 0.5 + b.b2.0 * 1.0 - b.a1.0 * y1 - b.a2.0 * y0;
    assert_eq!(y2, expected);
}

#[test]
fn butter_lowpass_node_filters_like_a_biquad_with_its_coefficients() {
    let mut node: ButterLowpass<F64, F64> = ButterLowpass::new(F64(44100.0));
    let mut plain: Biquad<F64, F64> = Biquad::new();
    plain.set_coefs(BiquadCoefs::butter_lowpass(F64(44100.0), F64(1000.0)));
    for i in 0..300 {
        let x = if i % 20 < 10 { 1.0 } else { -1.0 };
        let y = node.tick(&[F64(x), F64(1000.0)])[0].0;
        assert_eq!(y, plain.tick(&[F64(x)])[0].0);
    }
}

#[test]
fn butter_lowpass_recomputes_only_when_the_cutoff_changes() {
    let mut node: ButterLowpass<F64, F64> = ButterLowpass::new(F64(44100.0));
    let before = TAN_CALLS.load(Ordering::SeqCst);
    node.tick(&[F64(1.0), F64(0.0)]);
    assert_eq!(TAN_CALLS.load(Ordering::SeqCst), before);
    node.tick(&[F64(1.0), F64(1000.0)]);
    node.tick(&[F64(1.0), F64(1000.0)]);
    node.tick(&[F64(1.0), F64(1000.0)]);
    let once = TAN_CALLS.load(Ordering::SeqCst);
    node.tick(&[F64(1.0), F64(2000.0)]);
    node.tick(&[F64(1.0), F64(2000.0)]);
    node.tick(&[F64(1.0), F64(1000.0)]);
    let thrice = TAN_CALLS.load(Ordering::SeqCst);
    assert!(once > before);
    assert_eq!(thrice - once, 2 * (once - before));
}

#[test]
fn butter_lowpass_changes_cutoff_without_clearing_its_registers() {
    let mut node: ButterLowpass<F64, F64> = ButterLowpass::new(F64(44100.0));
    let mut plain: Biquad<F64, F64> = Biquad::new();
    plain.set_coefs(BiquadCoefs::butter_lowpass(F64(44100.0), F64(1000.0)));
    for _ in 0..20 {
        assert_eq!(node.tick(&[F64(1.0), F64(1000.0)])[0].0, plain.tick(&[F64(1.0)])[0].0);
    }
    plain.set_coefs(BiquadCoefs::butter_lowpass(F64(44100.0), F64(3000.0)));
    for _ in 0..20 {
        assert_eq!(node.tick(&[F64(1.0), F64(3000.0)])[0].0, plain.tick(&[F64(1.0)])[0].0);
    }
}

#[test]
fn butter_lowpass_reset_clears_registers_and_cached_cutoff() {
    let mut node: ButterLowpass<F64, F64> = ButterLowpass::new(F64(44100.0));
    let mut first = Vec::new();
    for _ in 0..30 {
        first.push(node.tick(&[F64(1.0), F64(800.0)])[0].0);
    }
    node.reset(None::<F64>);
    for i in 0..30 {
        assert_eq!(node.tick(&[F64(1.0), F64(800.0)])[0].0, first[i]);
    }
}

#[test]
fn butter_lowpass_reset_binds_a_new_sample_rate() {
    let mut node: ButterLowpass<F64, F64> = ButterLowpass::new(F64(44100.0));
    node.tick(&[F64(1.0), F64(800.0)]);
    node.reset(Some(F64(96000.0)));
    let mut plain: Biquad<F64, F64> = Biquad::new();
    plain.set_coefs(BiquadCoefs::butter_lowpass(F64(96000.0), F64(800.0)));
    for _ in 0..30 {
        assert_eq!(node.tick(&[F64(1.0), F64(800.0)])[0].0, plain.tick(&[F64(1.0)])[0].0);
    }
}

#[test]
fn resonator_node_filters_like_a_biquad_with_its_coefficients() {
    let mut node: Resonator<F64, F64> = Resonator::new(F64(44100.0));
    let mut plain: Biquad<F64, F64> = Biquad::new();
    plain.set_coefs(BiquadCoefs::resonator(F64(44100.0), F64(440.0), F64(30.0)));
    for i in 0..100 {
        let x = (i as f64 * 0.1).sin();
        assert_eq!(
            node.tick(&[F64(x), F64(440.0), F64(30.0)])[0].0,
            plain.tick(&[F64(x)])[0].0
        );
    }
    plain.set_coefs(BiquadCoefs::resonator(F64(44100.0), F64(440.0), F64(60.0)));
    for i in 0..100 {
        let x = (i as f64 * 0.1).sin();
        assert_eq!(
            node.tick(&[F64(x), F64(440.0), F64(60.0)])[0].0,
            plain.tick(&[F64(x)])[0].0
        );
    }
}

#[test]
fn resonator_reset_binds_a_new_sample_rate() {
    let mut node: Resonator<F64, F64> = Resonator::new(F64(44100.0));
    node.tick(&[F64(1.0), F64(440.0), F64(30.0)]);
    node.reset(Some(F64(48000.0)));
    let mut plain: Biquad<F64, F64> = Biquad::new();
    plain.set_coefs(BiquadCoefs::resonator(F64(48000.0), F64(440.0), F64(30.0)));
    for _ in 0..50 {
        assert_eq!(
            node.tick(&[F64(1.0), F64(440.0), F64(30.0)])[0].0,
            plain.tick(&[F64(1.0)])[0].0
        );
    }
}

#[test]
fn one_pole_lowpass_follows_its_recurrence() {
    let mut node: OnePoleLowpass<F64, F64> = OnePoleLowpass::new(F64(44100.0));
    let coeff = (-TAU * 1000.0 / 44100.0f64).exp();
    assert!(close(coeff, 0.8672084907890448, 1e-12));
    let mut value = 0.0f64;
    for i in 0..100 {
        let x = if i < 50 { 1.0 } else { 0.0 };
        value = (1.0 - coeff) * x + coeff * value;
        assert_eq!(node.tick(&[F64(x), F64(1000.0)])[0].0, value);
    }
}

#[test]
fn one_pole_lowpass_with_zero_cutoff_holds_its_value() {
    let mut node: OnePoleLowpass<F64, F64> = OnePoleLowpass::new(F64(44100.0));
    assert_eq!(node.tick(&[F64(1.0), F64(0.0)])[0].0, 0.0);
    assert_eq!(node.tick(&[F64(-0.5), F64(0.0)])[0].0, 0.0);
    let coeff = (-TAU * 1000.0 / 44100.0f64).exp();
    let y = node.tick(&[F64(1.0), F64(1000.0)])[0].0;
    assert_eq!(y, (1.0 - coeff) * 1.0 + coeff * 0.0);
    assert_eq!(node.tick(&[F64(0.25), F64(0.0)])[0].0, y);
}

#[test]
fn one_pole_lowpass_reset_is_a_new_node_at_the_bound_rate() {
    let mut node: OnePoleLowpass<F64, F64> = OnePoleLowpass::new(F64(44100.0));
    node.tick(&[F64(1.0), F64(1000.0)]);
    node.reset(Some(F64(48000.0)));
    let mut fresh: OnePoleLowpass<F64, F64> = OnePoleLowpass::new(F64(48000.0));
    assert_eq!(node.tick(&[F64(1.0), F64(0.0)])[0].0, 0.0);
    assert_eq!(fresh.tick(&[F64(1.0), F64(0.0)])[0].0, 0.0);
    for i in 0..50 {
        let x = (i % 5) as f64;
        assert_eq!(
            node.tick(&[F64(x), F64(700.0)])[0].0,
            fresh.tick(&[F64(x), F64(700.0)])[0].0
        );
    }
    node.reset(None::<F64>);
    let mut again: OnePoleLowpass<F64, F64> = OnePoleLowpass::new(F64(48000.0));
    assert_eq!(node.tick(&[F64(1.0), F64(0.0)])[0].0, again.tick(&[F64(1.0), F64(0.0)])[0].0);
}

#[test]
fn butter_lowpass_reset_is_a_new_node_at_the_bound_rate() {
    let mut node: ButterLowpass<F64, F64> = ButterLowpass::new(F64(44100.0));
    assert!(node.tick(&[F64(1.0), F64(1000.0)])[0].0 != 0.0);
    node.reset(Some(F64(96000.0)));
    let mut fresh: ButterLowpass<F64, F64> = ButterLowpass::new(F64(96000.0));
    assert_eq!(node.tick(&[F64(1.0), F64(0.0)])[0].0, 0.0);
    assert_eq!(fresh.tick(&[F64(1.0), F64(0.0)])[0].0, 0.0);
    for i in 0..50 {
        let x = (i % 5) as f64;
        assert_eq!(
            node.tick(&[F64(x), F64(700.0)])[0].0,
            fresh.tick(&[F64(x), F64(700.0)])[0].0
        );
    }
    node.reset(None::<F64>);
    assert_eq!(node.tick(&[F64(1.0), F64(0.0)])[0].0, 0.0);
}

#[test]
fn resonator_reset_is_a_new_node_at_the_bound_rate() {
    let mut node: Resonator<F64, F64> = Resonator::new(F64(44100.0));
    assert!(node.tick(&[F64(1.0), F64(440.0), F64(30.0)])[0].0 != 0.0);
    node.reset(Some(F64(96000.0)));
    let mut fresh: Resonator<F64, F64> = Resonator::new(F64(96000.0));
    assert_eq!(node.tick(&[F64(1.0), F64(0.0), F64(0.0)])[0].0, 0.0);
    assert_eq!(fresh.tick(&[F64(1.0), F64(0.0), F64(0.0)])[0].0, 0.0);
    for i in 0..50 {
        let x = (i % 5) as f64;
        assert_eq!(
            node.tick(&[F64(x), F64(440.0), F64(30.0)])[0].0,
            fresh.tick(&[F64(x), F64(440.0), F64(30.0)])[0].0
        );
    }
}

#[test]
fn butter_lowpass_numerator_and_denominator_agree_at_dc() {
    for &fc in &[50.0f64, 440.0, 1000.0, 8000.0, 20000.0] {
        let c = BiquadCoefs::butter_lowpass(F64(44100.0), F64(fc));
        let numerator = c.b0.0 + c.b1.0 + c.b2.0;
        let denominator = 1.0 + c.a1.0 + c.a2.0;
        assert!(close(numerator / denominator, 1.0, 1e-9));
    }
}

#[test]
fn butter_lowpass_has_half_power_at_cutoff() {
    for &fc in &[100.0f64, 1000.0, 5000.0] {
        let c = BiquadCoefs::butter_lowpass(F64(44100.0), F64(fc));
        assert!(close(response(&c, fc / 44100.0).norm_sqr(), 0.5, 1e-9));
    }
}

#[test]
fn biquad_with_butterworth_coefficients_settles_to_a_constant_input() {
    let mut node: Biquad<F64, F64> = Biquad::new();
    node.set_coefs(BiquadCoefs::butter_lowpass(F64(44100.0), F64(1000.0)));
    let mut y = 0.0f64;
    for _ in 0..5000 {
        y = node.tick(&[F64(0.7)])[0].0;
    }
    assert!(close(y, 0.7, 1e-9));
}

#[test]
fn biquad_with_butterworth_coefficients_halves_the_power_of_a_sine_at_cutoff() {
    let (sr, fc) = (44100.0f64, 2205.0f64);
    let mut node: Biquad<F64, F64> = Biquad::new();
    node.set_coefs(BiquadCoefs::butter_lowpass(F64(sr), F64(fc)));
    let mut peak = 0.0f64;
    for k in 0..20000 {
        let y = node.tick(&[F64((TAU * fc * (k as f64) / sr).sin())])[0].0;
        if k >= 10000 {
            peak = peak.max(y.abs());
        }
    }
    assert!(close(peak, 1.0 / SQRT_2, 1e-3));
}

#[test]
fn resonator_gain_is_greatest_at_center_over_the_whole_band() {
    let sr = 44100.0f64;
    let center = 1000.0f64;
    for &bw in &[10.0f64, 50.0] {
        let c = BiquadCoefs::resonator(F64(sr), F64(center), F64(bw));
        let at_center = response(&c, center / sr).norm();
        let mut w = 0.0f64;
        while w <= 0.5 {
            assert!(response(&c, w).norm() <= at_center * 1.001);
            w += 0.00005;
        }
        let low = response(&c, (center - bw / 2.0) / sr).norm();
        let high = response(&c, (center + bw / 2.0) / sr).norm();
        assert!(close(low, at_center / SQRT_2, at_center * 0.02));
        assert!(close(high, at_center / SQRT_2, at_center * 0.02));
    }
}

#[test]
fn dc_blocker_output_for_a_constant_decays_as_a_power_of_the_coefficient() {
    let mut node: DCBlocker<F64, F64> = DCBlocker::new(F64(44100.0), F64(10.0));
    let coeff = 1.0 - (TAU / 44100.0) * 10.0;
    let c = 0.6f64;
    let mut previous = f64::INFINITY;
    for k in 0..2000 {
        let y = node.tick(&[F64(c)])[0].0;
        assert!(close(y, c * coeff.powi(k), 1e-12));
        assert!(y.abs() <= c);
        assert!(y <= previous);
        previous = y;
    }
}

#[test]
fn dc_blocker_gain_at_the_nyquist_frequency_is_two_over_one_plus_coefficient() {
    let mut node: DCBlocker<F64, F64> = DCBlocker::new(F64(44100.0), F64(10.0));
    let coeff = 1.0 - (TAU / 44100.0) * 10.0;
    let mut y = 0.0f64;
    for k in 0..50000 {
        let x = if k % 2 == 0 { 0.5 } else { -0.5 };
        y = node.tick(&[F64(x)])[0].0;
    }
    assert!(close(y.abs() / 0.5, 2.0 / (1.0 + coeff), 1e-9));
    assert!(close(y.abs() / 0.5, 1.0, 1e-3));
}

#[test]
fn declicker_output_rises_from_zero_and_stays_within_the_input() {
    let mut node: Declicker<F64, F64> = Declicker::new(F64(44100.0), F64(0.01));
    let c = 0.9f64;
    let mut previous = 0.0f64;
    for k in 0..1000 {
        let y = node.tick(&[F64(c)])[0].0;
        if k == 0 {
            assert_eq!(y, 0.0);
        }
        assert!(y >= previous);
        assert!(y >= 0.0 && y <= c);
        if k as f64 / 44100.0 >= 0.0101 {
            assert_eq!(y, c);
        }
        previous = y;
    }
}

#[test]
fn one_pole_lowpass_reset_zeroes_the_value() {
    let mut node: OnePoleLowpass<F64, F64> = OnePoleLowpass::new(F64(44100.0));
    let first = node.tick(&[F64(1.0), F64(500.0)])[0].0;
    node.tick(&[F64(1.0), F64(500.0)]);
    node.reset(None::<F64>);
    assert_eq!(node.tick(&[F64(1.0), F64(500.0)])[0].0, first);
    node.reset(Some(F64(22050.0)));
    let coeff = (-TAU * 500.0 / 22050.0f64).exp();
    assert_eq!(node.tick(&[F64(1.0), F64(500.0)])[0].0, (1.0 - coeff) * 1.0 + coeff * 0.0);
}

#[test]
fn dc_blocker_follows_its_recurrence() {
    let mut node: DCBlocker<F64, F64> = DCBlocker::new(F64(44100.0), F64(10.0));
    let coeff = 1.0 - (TAU / 44100.0) * 10.0;
    assert!(close(coeff, 0.9985752414269434, 1e-15));
    let (mut x1, mut y1) = (0.0f64, 0.0f64);
    for i in 0..100 {
        let x = (i % 7) as f64;
        let y0 = x - x1 + coeff * y1;
        x1 = x;
        y1 = y0;
        assert_eq!(node.tick(&[F64(x)])[0].0, y0);
    }
}

#[test]
fn dc_blocker_removes_a_constant_and_passes_an_alternating_signal() {
    let mut node: DCBlocker<F64, F64> = DCBlocker::new(F64(44100.0), F64(10.0));
    let mut last = 1.0f64;
    for _ in 0..200000 {
        last = node.tick(&[F64(1.0)])[0].0;
    }
    assert!(last.abs() < 1e-9);
    node.reset(None::<F64>);
    let mut peak = 0.0f64;
    for i in 0..20000 {
        let x = if i % 2 == 0 { 1.0 } else { -1.0 };
        let y = node.tick(&[F64(x)])[0].0;
        if i > 19000 {
            peak = peak.max(y.abs());
        }
    }
    assert!(close(peak, 1.0, 0.01));
}

#[test]
fn declicker_starts_at_zero_and_ends_in_exact_pass_through() {
    let sr = 1000.0f64;
    let mut node: Declicker<F64, F64> = Declicker::new(F64(sr), F64(0.01));
    let first = node.tick(&[F64(0.8)])[0].0;
    assert_eq!(first, 0.0);
    let mut previous = first;
    let mut faded = 1;
    loop {
        let y = node.tick(&[F64(0.8)])[0].0;
        if y == 0.8 {
            break;
        }
        assert!(y >= previous);
        assert!(y < 0.8);
        previous = y;
        faded += 1;
        assert!(faded < 20);
    }
    assert!(faded >= 9);
    for i in 0..100 {
        let x = (i as f64).cos();
        assert_eq!(node.tick(&[F64(x)])[0].0, x);
    }
}

#[test]
fn declicker_gain_is_the_smoothstep_of_elapsed_time() {
    let mut node: Declicker<F32, F64> = Declicker::new(F64(100.0), F64(0.1));
    let sample_duration = 1.0 / 100.0f64;
    let mut t = 0.0f64;
    for _ in 0..10 {
        if t < 0.1 {
            let gain = smooth9(F64((t - 0.0) / (0.1 - 0.0))).0;
            let y = node.tick(&[F32(0.5)])[0].0;
            assert_eq!(y, 0.5f32 * (gain as f32));
            t += sample_duration;
        }
    }
}

#[test]
fn declicker_reset_starts_the_fade_again() {
    let mut node: Declicker<F64, F64> = Declicker::new(F64(1000.0), F64(0.005));
    for _ in 0..50 {
        node.tick(&[F64(1.0)]);
    }
    assert_eq!(node.tick(&[F64(1.0)])[0].0, 1.0);
    node.reset(None::<F64>);
    assert_eq!(node.tick(&[F64(1.0)])[0].0, 0.0);
}

#[test]
fn declicker_with_zero_duration_passes_everything() {
    let mut node: Declicker<F64, F64> = Declicker::new(F64(1000.0), F64(0.0));
    assert_eq!(node.tick(&[F64(0.3)])[0].0, 0.3);
}

#[test]
fn default_nodes_hold_zeros() {
    let mut biquad: Biquad<F64, F64> = Default::default();
    assert_eq!(biquad.tick(&[F64(1.0)])[0].0, 0.0);
    let mut blocker: DCBlocker<F64, F64> = Default::default();
    assert_eq!(blocker.tick(&[F64(1.0)])[0].0, 1.0);
    assert_eq!(blocker.tick(&[F64(1.0)])[0].0, 0.0);
    let mut declicker: Declicker<F64, F64> = Default::default();
    assert_eq!(declicker.tick(&[F64(0.4)])[0].0, 0.4);
    let mut lowpass: OnePoleLowpass<F64, F64> = Default::default();
    assert_eq!(lowpass.tick(&[F64(0.4), F64(0.0)])[0].0, 0.4);
    lowpass.reset(Some(F64(44100.0)));
    let mut fresh: OnePoleLowpass<F64, F64> = OnePoleLowpass::new(F64(44100.0));
    assert_eq!(lowpass.tick(&[F64(0.4), F64(0.0)])[0].0, 0.0);
    assert_eq!(
        lowpass.tick(&[F64(0.4), F64(300.0)])[0].0,
        fresh.tick(&[F64(0.4), F64(300.0)])[0].0
    );
}

#[test]
fn single_precision_nodes_take_the_sample_rate_in_double_precision() {
    let mut blocker: DCBlocker<F32, F32> = DCBlocker::new(F64(44100.0), F32(10.0));
    let coeff = 1.0f32 - ((TAU / 44100.0) as f32) * 10.0f32;
    let (mut x1, mut y1) = (0.0f32, 0.0f32);
    for i in 0..100 {
        let x = (i % 7) as f32;
        let y0 = x - x1 + coeff * y1;
        x1 = x;
        y1 = y0;
        assert_eq!(blocker.tick(&[F32(x)])[0].0, y0);
    }
    let mut declicker: Declicker<F32, F32> = Declicker::new(F64(48000.0), F32(0.001));
    let sample_duration = (1.0 / 48000.0f64) as f32;
    let mut t = 0.0f32;
    for _ in 0..60 {
        let y = declicker.tick(&[F32(0.5)])[0].0;
        if t < 0.001 {
            let gain = smooth9(F32((t - 0.0) / (0.001 - 0.0))).0;
            assert_eq!(y, 0.5 * gain);
            t += sample_duration;
        } else {
            assert_eq!(y, 0.5);
        }
    }
    let mut lowpass: OnePoleLowpass<F32, F32> = OnePoleLowpass::new(F64(44100.0));
    let c = ((-TAU as f32) * 1000.0f32 / 44100.0f32).exp();
    assert_eq!(lowpass.tick(&[F32(1.0), F32(1000.0)])[0].0, (1.0 - c) * 1.0 + c * 0.0);
}

impl Real for F32 {
    fn square_root(self) -> Self {
        self.sqrt()
    }
    fn exponential(self) -> Self {
        self.exp()
    }
    fn sine(self) -> Self {
        self.sin()
    }
    fn cosine(self) -> Self {
        self.cos()
    }
    fn tangent(self) -> Self {
        self.tan()
    }
    fn sqrt(self) -> Self {
        F32(self.0.sqrt())
    }
    fn exp(self) -> Self {
        F32(self.0.exp())
    }
    fn sin(self) -> Self {
        F32(self.0.sin())
    }
    fn cos(self) -> Self {
        F32(self.0.cos())
    }
    fn tan(self) -> Self {
        F32(self.0.tan())
    }
}
