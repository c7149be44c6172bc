use atomicdouble::ops::{compare_exchange_raw, lock_free_for, map_result, Step};
use atomicdouble::order::{
    is_valid_cas_orders, is_valid_load_order, is_valid_store_order, read_ordering, strength_of,
};
use atomicdouble::AtomicDouble;
use atomicdouble::Ordering;
use atomicdouble::Ordering::SeqCst;
use portable_atomic::AtomicU128;

#[test]
fn atomic_bar() {
    let a: AtomicDouble<(u64, u64)> = AtomicDouble::default();
    assert_eq!(AtomicDouble::<(u64, u64)>::is_lock_free(), true);
    a.load(SeqCst);
    assert_eq!(a.to_debug_string(), "AtomicDouble((0, 0))");
    assert_eq!(a.load(SeqCst), (0, 0));
    a.store((1, 1), SeqCst);
    assert_eq!(
        a.compare_exchange((5, 5), (45, 45), SeqCst, SeqCst),
        Err((1, 1))
    );
    assert_eq!(
        a.compare_exchange((1, 1), (3, 3), SeqCst, SeqCst),
        Ok((1, 1))
    );
    assert_eq!(a.load(SeqCst), (3, 3));
}

#[test]
fn atomic_sizebar() {
    assert_eq!(AtomicDouble::<(u32, u32)>::is_lock_free(), false);
}

#[test]
fn atomic_node() {
    // The first field stands for the head pointer, the second for the count.
    let temp_node_x: (u64, u64) = (0x1000, 3);
    let temp_node_y: (u64, u64) = (0x2000, 2);

    let a: AtomicDouble<(u64, u64)> = AtomicDouble::new(temp_node_x);
    assert_eq!(AtomicDouble::<(u64, u64)>::is_lock_free(), true);

    let load_test = a.load(SeqCst);
    assert_eq!(load_test.0, 0x1000);
    assert_eq!(load_test.1, 3);
    a.store(temp_node_y, SeqCst);
    assert_eq!(
        a.compare_exchange(temp_node_x, temp_node_y, SeqCst, SeqCst),
        Err(temp_node_y)
    );
    assert_eq!(
        a.compare_exchange(temp_node_y, temp_node_x, SeqCst, SeqCst),
        Ok(temp_node_y)
    );
    assert_eq!(a.load(SeqCst), temp_node_x);

    a.fetch_add((0, u64::MAX), SeqCst);
    assert_eq!(a.load(SeqCst).1, 2);

    a.fetch_sub((0, 3), SeqCst);
    assert_eq!(a.load(SeqCst).1, u64::MAX);
}

#[test]
fn load_orderings() {
    assert!(is_valid_load_order(Ordering::Relaxed));
    assert!(is_valid_load_order(Ordering::Acquire));
    assert!(is_valid_load_order(Ordering::SeqCst));
    assert!(!is_valid_load_order(Ordering::Release));
    assert!(!is_valid_load_order(Ordering::AcqRel));
}

#[test]
fn store_orderings() {
    assert!(is_valid_store_order(Ordering::Relaxed));
    assert!(is_valid_store_order(Ordering::Release));
    assert!(is_valid_store_order(Ordering::SeqCst));
    assert!(!is_valid_store_order(Ordering::Acquire));
    assert!(!is_valid_store_order(Ordering::AcqRel));
}

#[test]
fn compare_exchange_orderings() {
    assert!(is_valid_cas_orders(SeqCst, SeqCst));
    assert!(is_valid_cas_orders(SeqCst, Ordering::Relaxed));
    assert!(is_valid_cas_orders(Ordering::Acquire, Ordering::Release));
    assert!(is_valid_cas_orders(Ordering::Relaxed, Ordering::Relaxed));
    assert!(!is_valid_cas_orders(SeqCst, Ordering::Acquire));
    assert!(!is_valid_cas_orders(SeqCst, Ordering::AcqRel));
    assert!(!is_valid_cas_orders(Ordering::Relaxed, Ordering::Release));
    assert!(!is_valid_cas_orders(Ordering::AcqRel, SeqCst));
}

#[test]
fn ordering_strengths_and_read_parts() {
    assert_eq!(strength_of(Ordering::Relaxed), 0);
    assert_eq!(strength_of(Ordering::Acquire), 1);
    assert_eq!(strength_of(Ordering::Release), 1);
    assert_eq!(strength_of(Ordering::AcqRel), 2);
    assert_eq!(strength_of(SeqCst), 3);
    assert_eq!(read_ordering(Ordering::Release), Ordering::Relaxed);
    assert_eq!(read_ordering(Ordering::AcqRel), Ordering::Acquire);
    assert_eq!(read_ordering(SeqCst), SeqCst);
}

#[test]
fn store_then_load_round_trips() {
    let a: AtomicDouble<u128> = AtomicDouble::new(7);
    for v in [0u128, 1, u128::MAX, 1 << 64, 0xdead_beef] {
        a.store(v, SeqCst);
        assert_eq!(a.load(SeqCst), v);
    }
    let b: AtomicDouble<(u64, u64)> = AtomicDouble::new((9, 9));
    b.store((u64::MAX, 0), Ordering::Release);
    assert_eq!(b.load(Ordering::Acquire), (u64::MAX, 0));
}

#[test]
fn load_of_zero_keeps_zero() {
    let a: AtomicDouble<u128> = AtomicDouble::new(0);
    assert_eq!(a.load(SeqCst), 0);
    assert_eq!(a.load(Ordering::Relaxed), 0);
    let b: AtomicDouble<u128> = AtomicDouble::new(42);
    assert_eq!(b.load(SeqCst), 42);
    assert_eq!(b.load(SeqCst), 42);
}

#[test]
fn compare_exchange_split() {
    let a: AtomicDouble<u128> = AtomicDouble::new(10);
    assert_eq!(a.compare_exchange(11, 20, SeqCst, SeqCst), Err(10));
    assert_eq!(a.load(SeqCst), 10);
    assert_eq!(a.compare_exchange(10, 20, SeqCst, Ordering::Relaxed), Ok(10));
    assert_eq!(a.load(SeqCst), 20);
    assert_eq!(a.compare_exchange(20, 30, Ordering::AcqRel, Ordering::Release), Ok(20));
    assert_eq!(a.into_inner(), 30);
}

#[test]
fn increments_return_each_count_once() {
    let a: AtomicDouble<u128> = AtomicDouble::new(0);
    let n: u128 = 50;
    let mut seen = Vec::new();
    for _ in 0..n {
        seen.push(a.fetch_add(1, SeqCst));
    }
    let expected: Vec<u128> = (0..n).collect();
    assert_eq!(seen, expected);
    assert_eq!(a.load(SeqCst), n);
}

#[test]
fn fetch_add_and_sub_wrap() {
    let a: AtomicDouble<u128> = AtomicDouble::new(u128::MAX);
    assert_eq!(a.fetch_add(1, SeqCst), u128::MAX);
    assert_eq!(a.load(SeqCst), 0);
    assert_eq!(a.fetch_sub(1, SeqCst), 0);
    assert_eq!(a.load(SeqCst), u128::MAX);
    assert_eq!(a.fetch_sub(5, Ordering::Relaxed), u128::MAX);
    assert_eq!(a.load(SeqCst), u128::MAX - 5);
}

#[test]
fn pair_addition_carries_into_high_word() {
    let a: AtomicDouble<(u64, u64)> = AtomicDouble::new((u64::MAX, 0));
    assert_eq!(a.fetch_add((1, 0), SeqCst), (u64::MAX, 0));
    assert_eq!(a.load(SeqCst), (0, 1));
    assert_eq!(a.fetch_sub((1, 0), SeqCst), (0, 1));
    assert_eq!(a.load(SeqCst), (u64::MAX, 0));
}

#[test]
fn compare_exchange_after_carry() {
    let a: AtomicDouble<(u64, u64)> = AtomicDouble::new((u64::MAX, 0));
    a.fetch_add((1, 0), SeqCst);
    let cur = a.load(SeqCst);
    assert_eq!(cur, (0, 1));
    assert_eq!(a.compare_exchange((0, 0), (5, 5), SeqCst, SeqCst), Err((0, 1)));
    assert_eq!(a.compare_exchange(cur, (5, 5), SeqCst, SeqCst), Ok((0, 1)));
    assert_eq!(a.load(SeqCst), (5, 5));

    let b: AtomicDouble<u128> = AtomicDouble::new(u64::MAX as u128);
    b.fetch_add(1, SeqCst);
    let cur = b.load(SeqCst);
    assert_eq!(cur, 1 << 64);
    assert_eq!(b.compare_exchange(0, 5, SeqCst, SeqCst), Err(1 << 64));
    assert_eq!(b.compare_exchange(cur, 5, SeqCst, SeqCst), Ok(1 << 64));
    assert_eq!(b.load(SeqCst), 5);
}

#[test]
fn only_sixteen_byte_types_are_lock_free() {
    assert_eq!(AtomicDouble::<u64>::is_lock_free(), false);
    assert_eq!(AtomicDouble::<(u64, u64, u64)>::is_lock_free(), false);
}

#[test]
fn fence_is_reexported() {
    atomicdouble::fence(SeqCst);
    let a: AtomicDouble<u128> = AtomicDouble::new(1);
    assert_eq!(a.load(SeqCst), 1);
}

#[test]
fn lock_free_rule_values() {
    assert!(lock_free_for(16, true));
    assert!(!lock_free_for(16, false));
    assert!(!lock_free_for(8, true));
    assert!(!lock_free_for(32, true));
    assert_eq!(AtomicDouble::<u128>::is_lock_free(), lock_free_for(16, AtomicU128::is_lock_free()));
}

#[test]
fn steps_compute_next_word() {
    assert_eq!(Step::Replace(9).apply(4), 9);
    assert_eq!(Step::Add(3).apply(4), 7);
    assert_eq!(Step::Add(2).apply(u128::MAX), 1);
    assert_eq!(Step::Sub(5).apply(4), u128::MAX);
    assert_eq!(Step::Sub(4).apply(4), 0);
}

#[test]
fn raw_compare_exchange_reports_word() {
    let w = AtomicU128::new(5);
    assert_eq!(compare_exchange_raw(&w, 6, 1, SeqCst, SeqCst), Err(5));
    assert_eq!(compare_exchange_raw(&w, 5, 1, SeqCst, Ordering::Relaxed), Ok(5));
    assert_eq!(w.load(SeqCst), 1);
    let m: Result<(u64, u64), (u64, u64)> = map_result(Err((3u128 << 64) | 4));
    assert_eq!(m, Err((4, 3)));
}

#[test]
fn debug_text_shows_value() {
    let a: AtomicDouble<u128> = AtomicDouble::new(45);
    assert_eq!(a.to_debug_string(), "AtomicDouble(45)");
}
