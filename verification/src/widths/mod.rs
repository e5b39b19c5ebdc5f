//! For each width, the proof that the state 1 has period `2^n - 1` exactly.

pub mod w01_08;
pub mod w09_12;
pub mod w13_15;
pub mod w16_17;
pub mod w18_19;
pub mod w20_21;
pub mod w22_23;
pub mod w24;
pub mod w25;
pub mod w26;
pub mod w27;
pub mod w28;
pub mod w29;
pub mod w30;
pub mod w31;
