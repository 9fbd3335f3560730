use desktop_icons::shuffle::{
    clock_nanos, drop_order_with_clock, randomized_drop_order, shuffle_indices,
    shuffle_indices_with_clock, SEED_MIX,
};

fn sorted(mut v: Vec<usize>) -> Vec<usize> {
    v.sort();
    v
}

/// The generator and exchanges written out step by step.
fn reference_shuffle(v: &mut Vec<usize>, clock: u64) {
    let mut state = clock ^ (v.len() as u64).wrapping_mul(SEED_MIX);
    for index in (1..v.len()).rev() {
        state ^= state << 13;
        state ^= state >> 7;
        state ^= state << 17;
        v.swap(index, state as usize % (index + 1));
    }
}

#[test]
fn seeded_shuffle_gives_exact_orders() {
    let mut v: Vec<usize> = (0..5).collect();
    shuffle_indices_with_clock(&mut v, 12345);
    assert_eq!(v, vec![0, 3, 2, 4, 1]);

    let mut v: Vec<usize> = (0..8).collect();
    shuffle_indices_with_clock(&mut v, 0);
    assert_eq!(v, vec![6, 5, 0, 3, 7, 2, 4, 1]);

    let mut v = vec![10, 20];
    shuffle_indices_with_clock(&mut v, 1);
    assert_eq!(v, vec![10, 20]);
}

#[test]
fn seeded_shuffle_matches_step_by_step_generator() {
    for len in 0..20usize {
        for clock in [0u64, 1, 42, 0xDEAD_BEEF, u64::MAX] {
            let mut a: Vec<usize> = (0..len).map(|i| i * 3).collect();
            let mut b = a.clone();
            shuffle_indices_with_clock(&mut a, clock);
            reference_shuffle(&mut b, clock);
            assert_eq!(a, b);
        }
    }
}

#[test]
fn shuffle_of_short_lists_keeps_them() {
    let mut empty: Vec<usize> = Vec::new();
    shuffle_indices_with_clock(&mut empty, 7);
    assert!(empty.is_empty());
    let mut one = vec![9];
    shuffle_indices(&mut one);
    assert_eq!(one, vec![9]);
}

#[test]
fn shuffle_keeps_the_entries() {
    let original: Vec<usize> = vec![4, 4, 1, 7, 0, 2, 9, 9, 9];
    for clock in 0..50u64 {
        let mut v = original.clone();
        shuffle_indices_with_clock(&mut v, clock);
        assert_eq!(sorted(v), sorted(original.clone()));
    }
    let mut v = original.clone();
    shuffle_indices(&mut v);
    assert_eq!(sorted(v), sorted(original));
}

#[test]
fn clock_reads_after_the_epoch() {
    assert!(clock_nanos() > 0);
}

#[test]
fn drop_order_skips_the_recycle_bin() {
    let order = drop_order_with_clock(5, 2, 987654321);
    assert_eq!(order, vec![3, 1, 4, 0]);
    for clock in 0..30u64 {
        let order = drop_order_with_clock(7, 3, clock);
        assert_eq!(sorted(order), vec![0, 1, 2, 4, 5, 6]);
    }
}

#[test]
fn randomized_drop_order_holds_each_other_icon_once() {
    let order = randomized_drop_order(6, 0);
    assert_eq!(sorted(order), vec![1, 2, 3, 4, 5]);
    let order = randomized_drop_order(4, 10);
    assert_eq!(sorted(order), vec![0, 1, 2, 3]);
    assert!(randomized_drop_order(0, 0).is_empty());
    assert!(randomized_drop_order(1, 0).is_empty());
}
