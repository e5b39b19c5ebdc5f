//! Sample-synchronous signal processing nodes: maximal-length sequences,
//! noise generators, biquad filters and a sine oscillator.

pub mod divisors;
pub mod filter;
pub mod mls;
pub mod mls_algebra;
pub mod mls_orbit;
pub mod mls_period;
pub mod noise;
pub mod numeric;
pub mod oscillator;
pub mod primes;
pub mod residues;
pub mod widths;
