use dsp_nodes::mls::Mls;
use dsp_nodes::noise::{MlsNoise, NoiseNode};
use dsp_nodes::numeric::{Float, Real};
use dsp_nodes::oscillator::{hashed_fraction, rnd, SineComponent};
use std::f64::consts::TAU;

#[derive(Copy, Clone, Debug, PartialEq)]
struct F64(f64);

#[derive(Copy, Clone, Debug, PartialEq)]
struct F32(f32);

impl Float for F64 {
    fn from_int(n: i64) -> Self {
        Self::new(n)
    }
    fn from_double(b: u64) -> Self {
        Self::from_bits(b)
    }
    fn double(self) -> u64 {
        self.to_bits()
    }
    fn sum(self, rhs: Self) -> Self {
        self.add(rhs)
    }
    fn difference(self, rhs: Self) -> Self {
        self.sub(rhs)
    }
    fn product(self, rhs: Self) -> Self {
        self.mul(rhs)
    }
    fn quotient(self, rhs: Self) -> Self {
        self.div(rhs)
    }
    fn negation(self) -> Self {
        self.neg()
    }
    fn less(self, rhs: Self) -> bool {
        self.lt(rhs)
    }
    fn differs(self, rhs: Self) -> bool {
        self.ne(rhs)
    }
    fn new(n: i64) -> Self {
        F64(n as f64)
    }
    fn from_bits(b: u64) -> Self {
        F64(f64::from_bits(b))
    }
    fn to_bits(self) -> u64 {
        self.0.to_bits()
    }
    fn add(self, rhs: Self) -> Self {
        F64(self.0 + rhs.0)
    }
    fn sub(self, rhs: Self) -> Self {
        F64(self.0 - rhs.0)
    }
    fn mul(self, rhs: Self) -> Self {
        F64(self.0 * rhs.0)
    }
    fn div(self, rhs: Self) -> Self {
        F64(self.0 / rhs.0)
    }
    fn neg(self) -> Self {
        F64(-self.0)
    }
    fn lt(self, rhs: Self) -> bool {
        self.0 < rhs.0
    }
    fn ne(self, rhs: Self) -> bool {
        self.0 != rhs.0
    }
}

impl Real for F64 {
    fn square_root(self) -> Self {
        self.sqrt()
    }
    fn exponential(self) -> Self {
        self.exp()
    }
    fn sine(self) -> Self {
        self.sin()
    }
    fn cosine(self) -> Self {
        self.cos()
    }
    fn tangent(self) -> Self {
        self.tan()
    }
    fn sqrt(self) -> Self {
        F64(self.0.sqrt())
    }
    fn exp(self) -> Self {
        F64(self.0.exp())
    }
    fn sin(self) -> Self {
        F64(self.0.sin())
    }
    fn cos(self) -> Self {
        F64(self.0.cos())
    }
    fn tan(self) -> Self {
        F64(self.0.tan())
    }
}

impl Float for F32 {
    fn from_int(n: i64) -> Self {
        Self::new(n)
    }
    fn from_double(b: u64) -> Self {
        Self::from_bits(b)
    }
    fn double(self) -> u64 {
        self.to_bits()
    }
    fn sum(self, rhs: Self) -> Self {
        self.add(rhs)
    }
    fn difference(self, rhs: Self) -> Self {
        self.sub(rhs)
    }
    fn product(self, rhs: Self) -> Self {
        self.mul(rhs)
    }
    fn quotient(self, rhs: Self) -> Self {
        self.div(rhs)
    }
    fn negation(self) -> Self {
        self.neg()
    }
    fn less(self, rhs: Self) -> bool {
        self.lt(rhs)
    }
    fn differs(self, rhs: Self) -> bool {
        self.ne(rhs)
    }
    fn new(n: i64) -> Self {
        F32(n as f32)
    }
    fn from_bits(b: u64) -> Self {
        F32(f64::from_bits(b) as f32)
    }
    fn to_bits(self) -> u64 {
        (self.0 as f64).to_bits()
    }
    fn add(self, rhs: Self) -> Self {
        F32(self.0 + rhs.0)
    }
    fn sub(self, rhs: Self) -> Self {
        F32(self.0 - rhs.0)
    }
    fn mul(self, rhs: Self) -> Self {
        F32(self.0 * rhs.0)
    }
    fn div(self, rhs: Self) -> Self {
        F32(self.0 / rhs.0)
    }
    fn neg(self) -> Self {
        F32(-self.0)
    }
    fn lt(self, rhs: Self) -> bool {
        self.0 < rhs.0
    }
    fn ne(self, rhs: Self) -> bool {
        self.0 != rhs.0
    }
}

const MULTIPLIER: u64 = 6364136223846793005;
const INCREMENT: u64 = 1442695040888963407;

#[test]
fn noise_node_maps_the_top_20_bits_of_each_state() {
    let mut node: NoiseNode<F64> = NoiseNode::new();
    let expected_top = [82007u64, 106638, 634727, 420705, 402260];
    let expected = [
        -0.8435839114989391f64,
        -0.7966039625205636,
        0.21064683022196795,
        -0.1975681281739503,
        -0.2327492072574685,
    ];
    for i in 0..5 {
        let y = node.tick(&[])[0].0;
        assert_eq!(y, expected_top[i] as f64 / 524287.5 - 1.0);
        assert_eq!(y, expected[i]);
    }
}

#[test]
fn noise_node_follows_the_linear_congruential_generator() {
    let mut node: NoiseNode<F64> = NoiseNode::new();
    node.set_hash(12345);
    node.reset(None::<F64>);
    let mut x: u64 = 12345;
    for _ in 0..10000 {
        x = x.wrapping_mul(MULTIPLIER).wrapping_add(INCREMENT);
        let top = x >> 44;
        assert!(top != 0xf_ffff);
        let expected = top as f64 / 524287.5 - 1.0;
        assert_eq!(node.tick(&[])[0].0, expected);
    }
}

#[test]
fn noise_node_stays_at_or_above_minus_one_and_below_one() {
    for &hash in &[0u32, 1, 77, 0xffff_ffff] {
        let mut node: NoiseNode<F64> = NoiseNode::new();
        node.set_hash(hash);
        node.reset(None::<F64>);
        for _ in 0..1_000_000 {
            let y = node.tick(&[])[0].0;
            assert!(y >= -1.0 && y < 1.0);
        }
    }
}

#[test]
fn noise_node_stays_below_one_in_single_precision() {
    let mut node: NoiseNode<F32> = NoiseNode::new();
    node.set_hash(1);
    node.reset(None::<F64>);
    for _ in 0..1_000_000 {
        let y = node.tick(&[])[0].0;
        assert!(y >= -1.0 && y < 1.0);
    }
}

#[test]
fn noise_node_takes_the_level_below_when_the_top_20_bits_are_all_set() {
    let mut node: NoiseNode<F64> = NoiseNode::new();
    node.set_hash(1);
    node.reset(None::<F64>);
    let mut x: u64 = 1;
    let mut last = 0.0f64;
    for _ in 0..453391 {
        x = x.wrapping_mul(MULTIPLIER).wrapping_add(INCREMENT);
        last = node.tick(&[])[0].0;
    }
    assert_eq!(x >> 44, 0xf_ffff);
    assert_eq!(last, 1048574.0 / 524287.5 - 1.0);
    assert!(last < 1.0);
    assert!(last > 0.999998);
}

#[test]
fn noise_node_reset_reproduces_the_sequence() {
    let mut node: NoiseNode<F32> = NoiseNode::new();
    node.set_hash(424242);
    node.reset(None::<F64>);
    let first: Vec<f32> = (0..1000).map(|_| node.tick(&[])[0].0).collect();
    node.reset(Some(F32(48000.0)));
    let second: Vec<f32> = (0..1000).map(|_| node.tick(&[])[0].0).collect();
    assert_eq!(first, second);
    let mut other: NoiseNode<F32> = NoiseNode::new();
    other.set_hash(424242);
    other.reset(None::<F64>);
    let third: Vec<f32> = (0..1000).map(|_| other.tick(&[])[0].0).collect();
    assert_eq!(first, third);
}

#[test]
fn noise_node_set_hash_waits_for_the_reset() {
    let mut a: NoiseNode<F64> = NoiseNode::new();
    let mut b: NoiseNode<F64> = NoiseNode::new();
    b.set_hash(9);
    assert_eq!(a.tick(&[])[0].0, b.tick(&[])[0].0);
    b.reset(None::<F64>);
    a.reset(None::<F64>);
    assert!(a.tick(&[])[0].0 != b.tick(&[])[0].0);
}

#[test]
fn mls_noise_maps_bits_to_minus_one_and_one() {
    let mut mls = Mls::new(4);
    let mut node: MlsNoise<F64> = MlsNoise::new(mls);
    let values = [1u32, 1, 1, 1, 0, 0, 0, 1, 0, 0, 1, 1, 0, 1, 0, 1];
    for i in 0..16 {
        let y = node.tick(&[])[0].0;
        assert_eq!(y, if values[i] == 1 { 1.0 } else { -1.0 });
        assert_eq!(y, (mls.value() as f64) * 2.0 - 1.0);
        mls = mls.next();
    }
}

#[test]
fn mls_noise_reset_reseeds_from_the_hash() {
    let mut node: MlsNoise<F32> = MlsNoise::new(Mls::new(15));
    node.set_hash(1000);
    node.reset(None::<F64>);
    let mut mls = Mls::new_with_seed(15, 1000);
    for _ in 0..40000 {
        let y = node.tick(&[])[0].0;
        assert_eq!(y, (mls.value() as f32) * 2.0 - 1.0);
        mls = mls.next();
    }
    node.reset(None::<F64>);
    let mut again = Mls::new_with_seed(15, 1000);
    for _ in 0..100 {
        assert_eq!(node.tick(&[])[0].0, (again.value() as f32) * 2.0 - 1.0);
        again = again.next();
    }
}

#[test]
fn mls_noise_clone_continues_the_same_sequence() {
    let mut node: MlsNoise<F64> = MlsNoise::new(Mls::new_with_seed(9, 3));
    node.tick(&[]);
    let mut copy = node.clone();
    for _ in 0..600 {
        assert_eq!(node.tick(&[])[0].0, copy.tick(&[])[0].0);
    }
}

#[test]
fn hash_fraction_has_its_exact_values() {
    assert_eq!(hashed_fraction(0), 0);
    assert_eq!(hashed_fraction(1), 4290992);
    assert_eq!(hashed_fraction(2), 1874275);
    assert_eq!(hashed_fraction(12345), 13728250);
    for x in 0..10000u64 {
        assert!(hashed_fraction(x.wrapping_mul(0x9e37_79b9_7f4a_7c15)) < (1u64 << 24));
    }
}

#[test]
fn rnd_maps_a_hash_into_the_unit_interval() {
    assert_eq!(rnd::<F64>(0).0, 0.0);
    assert_eq!(rnd::<F64>(1).0, 0.25576305389404297);
    assert_eq!(rnd::<F64>(2).0, 0.11171549558639526);
    assert_eq!(rnd::<F64>(12345).0, 0.8182674646377563);
    for x in 0..100000u64 {
        let r = rnd::<F64>(x).0;
        assert!(r >= 0.0 && r < 1.0);
        let single = rnd::<F32>(x).0;
        assert!(single >= 0.0 && single < 1.0);
        assert_eq!(single as f64, r);
    }
}

#[test]
fn sine_follows_the_closed_form() {
    let (sr, f) = (44100.0f64, 440.0f64);
    let mut node: SineComponent<F64, F64> = SineComponent::new();
    node.set_hash(5);
    node.reset(Some(F64(sr)));
    let phase0 = rnd::<F64>(5).0;
    assert_eq!(phase0, 0.23007553815841675);
    for k in 1..=1000 {
        let y = node.tick(&[F64(f)])[0].0;
        let expected = (TAU * f * (k as f64) / sr + TAU * phase0).sin();
        assert!((y - expected).abs() < 1e-9);
    }
}

#[test]
fn sine_accumulates_phase_without_wrapping() {
    let sr = 48000.0f64;
    let mut node: SineComponent<F32, F64> = SineComponent::new();
    node.reset(Some(F64(sr)));
    let mut phase = rnd::<F64>(0).0;
    let sample_duration = 1.0 / sr;
    for k in 0..5000 {
        let f = 100.0f32 + (k % 50) as f32;
        phase += (f as f64) * sample_duration;
        let y = node.tick(&[F32(f)])[0].0;
        assert_eq!(y, ((phase * TAU).sin()) as f32);
    }
    assert!(phase > 10.0);
}

#[test]
fn new_sine_runs_at_the_default_sample_rate_from_phase_zero() {
    let mut node: SineComponent<F64, F64> = SineComponent::new();
    let y = node.tick(&[F64(11025.0)])[0].0;
    assert_eq!(y, ((11025.0 * (1.0 / 44100.0f64)) * TAU).sin());
    assert!((y - 1.0).abs() < 1e-12);
}

#[test]
fn sines_with_different_hashes_start_at_different_phases() {
    let mut a: SineComponent<F64, F64> = SineComponent::new();
    let mut b: SineComponent<F64, F64> = SineComponent::new();
    a.set_hash(1);
    b.set_hash(2);
    a.reset(None::<F64>);
    b.reset(None::<F64>);
    assert!(a.tick(&[F64(0.0)])[0].0 != b.tick(&[F64(0.0)])[0].0);
    assert_eq!(a.tick(&[F64(0.0)])[0].0, (rnd::<F64>(1).0 * TAU).sin());
}

#[test]
fn sine_reset_without_a_sample_rate_keeps_the_sample_duration() {
    let mut node: SineComponent<F64, F64> = SineComponent::new();
    node.reset(Some(F64(1000.0)));
    node.reset(None::<F64>);
    let y = node.tick(&[F64(250.0)])[0].0;
    assert_eq!(y, ((0.0 + 250.0 * (1.0 / 1000.0f64)) * TAU).sin());
}
