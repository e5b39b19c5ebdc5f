use dsp_nodes::mls::{Mls, MLS_POLY};

fn reference_step(n: u32, s: u32) -> u32 {
    let feedback = MLS_POLY[(n - 1) as usize] & s;
    let parity = feedback.count_ones() & 1;
    ((s << 1) | parity) & ((1u32 << n) - 1)
}

#[test]
fn new_starts_with_all_bits_set() {
    for n in 1..=31u32 {
        let m = Mls::new(n);
        assert_eq!(m.bits(), n);
        assert_eq!(m.state(), (1u32 << n) - 1);
        assert_eq!(m.value(), 1);
    }
}

#[test]
fn length_is_two_to_the_n_minus_one() {
    assert_eq!(Mls::new(1).length(), 1);
    assert_eq!(Mls::new(4).length(), 15);
    assert_eq!(Mls::new(16).length(), 65535);
    assert_eq!(Mls::new(31).length(), 2147483647);
}

#[test]
fn seed_gives_one_plus_seed_mod_length() {
    assert_eq!(Mls::new_with_seed(4, 0).state(), 1);
    assert_eq!(Mls::new_with_seed(4, 14).state(), 15);
    assert_eq!(Mls::new_with_seed(4, 15).state(), 1);
    assert_eq!(Mls::new_with_seed(4, 100).state(), 11);
    assert_eq!(Mls::new_with_seed(31, u32::MAX).state(), 2);
    assert_eq!(Mls::new_with_seed(1, 12345).state(), 1);
    assert_eq!(Mls::new_with_seed(10, 0xdead_beef).state(), 1 + 0xdead_beefu32 % 1023);
}

#[test]
fn four_bit_sequence_is_the_known_one() {
    let states = [15u32, 14, 12, 8, 1, 2, 4, 9, 3, 6, 13, 10, 5, 11, 7, 15];
    let values = [1u32, 1, 1, 1, 0, 0, 0, 1, 0, 0, 1, 1, 0, 1, 0, 1];
    let mut m = Mls::new(4);
    for i in 0..16 {
        assert_eq!(m.state(), states[i]);
        assert_eq!(m.value(), values[i]);
        m = m.next();
    }
}

#[test]
fn next_follows_the_feedback_formula() {
    for n in 1..=31u32 {
        let mut m = Mls::new_with_seed(n, 0x1234_5678);
        for _ in 0..1000 {
            let expected = reference_step(n, m.state());
            let v = (m.state() >> (n - 1)) & 1;
            assert_eq!(m.value(), v);
            m = m.next();
            assert_eq!(m.state(), expected);
            assert_eq!(m.bits(), n);
            assert!(m.state() != 0);
            assert!(m.state() < (1u32 << n));
        }
    }
}

#[test]
fn next_does_not_change_the_receiver() {
    let m = Mls::new(7);
    let before = m.state();
    let _ = m.next();
    assert_eq!(m.state(), before);
}

#[test]
fn every_nonzero_state_is_visited_once_per_period() {
    for n in 1..=16u32 {
        let len = (1usize << n) - 1;
        let mut seen = vec![false; len + 1];
        let mut m = Mls::new_with_seed(n, 77);
        let start = m.state();
        for _ in 0..len {
            let s = m.state() as usize;
            assert!(s != 0);
            assert!(!seen[s]);
            seen[s] = true;
            m = m.next();
        }
        assert_eq!(m.state(), start);
        assert!(!seen[0]);
        assert!(seen[1..].iter().all(|&b| b));
    }
}

#[test]
fn period_is_exact_for_twenty_bits() {
    let m0 = Mls::new(20);
    let mut m = m0.next();
    let mut k: u32 = 1;
    while m.state() != m0.state() {
        m = m.next();
        k += 1;
    }
    assert_eq!(k, m0.length());
}

#[test]
fn same_seed_gives_the_same_sequence() {
    let mut a = Mls::new_with_seed(23, 424242);
    let mut b = Mls::new_with_seed(23, 424242);
    for _ in 0..5000 {
        assert_eq!(a.state(), b.state());
        assert_eq!(a.value(), b.value());
        a = a.next();
        b = b.next();
    }
}

#[test]
fn one_bit_register_stays_at_one() {
    let m = Mls::new(1);
    assert_eq!(m.state(), 1);
    assert_eq!(m.next().state(), 1);
    assert_eq!(m.next().value(), 1);
}
