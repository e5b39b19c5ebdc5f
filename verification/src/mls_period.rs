//! The period of a maximal-length sequence: from any nonzero state the
//! register passes through all `2^n - 1` nonzero states before it repeats.

use crate::mls::{lemma_state_mask_is_pow2, state_mask, MlsState};
use crate::mls_algebra::{iterate, lemma_iterate_add};
use crate::mls_orbit::{is_period, lemma_every_orbit, lemma_iterate_nonzero, lemma_orbit_covers};
use crate::widths::w01_08::{
    lemma_unit_period_01, lemma_unit_period_02, lemma_unit_period_03, lemma_unit_period_04,
    lemma_unit_period_05, lemma_unit_period_06, lemma_unit_period_07, lemma_unit_period_08,
};
use crate::widths::w09_12::{
    lemma_unit_period_09, lemma_unit_period_10, lemma_unit_period_11, lemma_unit_period_12,
};
use crate::widths::w13_15::{lemma_unit_period_13, lemma_unit_period_14, lemma_unit_period_15};
use crate::widths::w16_17::{lemma_unit_period_16, lemma_unit_period_17};
use crate::widths::w18_19::{lemma_unit_period_18, lemma_unit_period_19};
use crate::widths::w20_21::{lemma_unit_period_20, lemma_unit_period_21};
use crate::widths::w22_23::{lemma_unit_period_22, lemma_unit_period_23};
use crate::widths::w24::lemma_unit_period_24;
use crate::widths::w25::lemma_unit_period_25;
use crate::widths::w26::lemma_unit_period_26;
use crate::widths::w27::lemma_unit_period_27;
use crate::widths::w28::lemma_unit_period_28;
use crate::widths::w29::lemma_unit_period_29;
use crate::widths::w30::lemma_unit_period_30;
use crate::widths::w31::lemma_unit_period_31;
use vstd::arithmetic::power2::lemma2_to64;
use vstd::prelude::*;

verus! {

/// The state 1 comes back after `2^n - 1` steps, and after no smaller
/// positive number of steps.
pub proof fn lemma_unit_period(n: u32, k: nat)
    requires
        1 <= n <= 31,
    ensures
        is_period(n, 1, state_mask(n) as nat),
        0 < k < state_mask(n) ==> !is_period(n, 1, k),
{
    lemma_state_mask_is_pow2(n);
    lemma2_to64();
    if n == 1 {
        lemma_unit_period_01();
    } else if n == 2 {
        lemma_unit_period_02(if 0 < k < 3 { k } else { 1 });
    } else if n == 3 {
        lemma_unit_period_03(if 0 < k < 7 { k } else { 1 });
    } else if n == 4 {
        lemma_unit_period_04(if 0 < k < 15 { k } else { 1 });
    } else if n == 5 {
        lemma_unit_period_05(if 0 < k < 31 { k } else { 1 });
    } else if n == 6 {
        lemma_unit_period_06(if 0 < k < 63 { k } else { 1 });
    } else if n == 7 {
        lemma_unit_period_07(if 0 < k < 127 { k } else { 1 });
    } else if n == 8 {
        lemma_unit_period_08(if 0 < k < 255 { k } else { 1 });
    } else if n == 9 {
        lemma_unit_period_09(if 0 < k < 511 { k } else { 1 });
    } else if n == 10 {
        lemma_unit_period_10(if 0 < k < 1023 { k } else { 1 });
    } else if n == 11 {
        lemma_unit_period_11(if 0 < k < 2047 { k } else { 1 });
    } else if n == 12 {
        lemma_unit_period_12(if 0 < k < 4095 { k } else { 1 });
    } else if n == 13 {
        lemma_unit_period_13(if 0 < k < 8191 { k } else { 1 });
    } else if n == 14 {
        lemma_unit_period_14(if 0 < k < 16383 { k } else { 1 });
    } else if n == 15 {
        lemma_unit_period_15(if 0 < k < 32767 { k } else { 1 });
    } else if n == 16 {
        lemma_unit_period_16(if 0 < k < 65535 { k } else { 1 });
    } else if n == 17 {
        lemma_unit_period_17(if 0 < k < 131071 { k } else { 1 });
    } else if n == 18 {
        lemma_unit_period_18(if 0 < k < 262143 { k } else { 1 });
    } else if n == 19 {
        lemma_unit_period_19(if 0 < k < 524287 { k } else { 1 });
    } else if n == 20 {
        lemma_unit_period_20(if 0 < k < 1048575 { k } else { 1 });
    } else if n == 21 {
        lemma_unit_period_21(if 0 < k < 2097151 { k } else { 1 });
    } else if n == 22 {
        lemma_unit_period_22(if 0 < k < 4194303 { k } else { 1 });
    } else if n == 23 {
        lemma_unit_period_23(if 0 < k < 8388607 { k } else { 1 });
    } else if n == 24 {
        lemma_unit_period_24(if 0 < k < 16777215 { k } else { 1 });
    } else if n == 25 {
        lemma_unit_period_25(if 0 < k < 33554431 { k } else { 1 });
    } else if n == 26 {
        lemma_unit_period_26(if 0 < k < 67108863 { k } else { 1 });
    } else if n == 27 {
        lemma_unit_period_27(if 0 < k < 134217727 { k } else { 1 });
    } else if n == 28 {
        lemma_unit_period_28(if 0 < k < 268435455 { k } else { 1 });
    } else if n == 29 {
        lemma_unit_period_29(if 0 < k < 536870911 { k } else { 1 });
    } else if n == 30 {
        lemma_unit_period_30(if 0 < k < 1073741823 { k } else { 1 });
    } else {
        lemma_unit_period_31(if 0 < k < 2147483647 { k } else { 1 });
    }
}

/// The register `k` steps on has the same width, and the state that `k`
/// steps lead to.
pub proof fn lemma_advanced_is_iterate(m: MlsState, k: nat)
    ensures
        m.advanced(k) == (MlsState { bits: m.bits, state: iterate(m.bits, m.state, k) }),
    decreases k,
{
    if k > 0 {
        lemma_advanced_is_iterate(m, (k - 1) as nat);
    }
}

/// A register never reaches the state zero: every register that follows a
/// well-formed one is well-formed.
pub proof fn lemma_never_zero(m: MlsState, k: nat)
    requires
        m.wf(),
    ensures
        m.advanced(k).wf(),
        m.advanced(k).state != 0,
{
    lemma_advanced_is_iterate(m, k);
    lemma_iterate_nonzero(m.bits, m.state, k);
}

/// A register started from any nonzero state visits exactly `2^n - 1`
/// distinct states before it repeats: after `2^n - 1` steps it is back where
/// it started, and two registers on the way that are fewer than `2^n - 1`
/// steps apart are different.
pub proof fn lemma_period(m: MlsState, i: nat, j: nat)
    requires
        m.wf(),
        i < j,
        j - i < m.length(),
    ensures
        m.advanced(m.length() as nat) == m,
        m.advanced(i) != m.advanced(j),
{
    let n = m.bits;
    lemma_unit_period(n, 0);
    assert forall|k: nat| 0 < k < state_mask(n) implies !is_period(n, 1, k) by {
        lemma_unit_period(n, k);
    }
    lemma_every_orbit(n, m.state, i, j);
    lemma_advanced_is_iterate(m, i);
    lemma_advanced_is_iterate(m, j);
    lemma_advanced_is_iterate(m, m.length() as nat);
}

/// From any nonzero state the register reaches every nonzero state of its
/// width, each in fewer than `2^n - 1` steps: the states it passes through
/// before it repeats are all of them.
pub proof fn lemma_visits_every_state(m: MlsState, s: u32) -> (k: nat)
    requires
        m.wf(),
        1 <= s <= state_mask(m.bits),
    ensures
        k < m.length(),
        m.advanced(k) == (MlsState { bits: m.bits, state: s }),
{
    let n = m.bits;
    let len = state_mask(n) as nat;
    lemma_unit_period(n, 0);
    assert forall|j: nat| 0 < j < state_mask(n) implies !is_period(n, 1, j) by {
        lemma_unit_period(n, j);
    }
    let from = lemma_orbit_covers(n, m.state);
    let to = lemma_orbit_covers(n, s);
    let k = if to >= from {
        (to - from) as nat
    } else {
        (len - from + to) as nat
    };
    lemma_iterate_add(n, 1, from, k);
    lemma_iterate_add(n, 1, len, to);
    lemma_advanced_is_iterate(m, k);
    k
}

/// Two registers made from the same width and seed produce the same
/// sequence: after any number of steps they are equal, and so are their
/// values.
pub proof fn lemma_seed_determines_sequence(a: MlsState, b: MlsState, n: u32, seed: u32, k: nat)
    requires
        a == MlsState::seeded(n, seed),
        b == MlsState::seeded(n, seed),
    ensures
        a.advanced(k) == b.advanced(k),
        a.advanced(k).value() == b.advanced(k).value(),
{
}

} // verus!
