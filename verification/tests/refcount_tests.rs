use core_graphics::refcount::RefCount;

#[test]
fn fresh_object_has_one_reference() {
    let count = RefCount::new();
    assert_eq!(count.current_count(), 1);
}

#[test]
fn n_clones_then_n_plus_one_drops_free_exactly_once() {
    let n: u64 = 4;
    let mut count = RefCount::new();
    for _ in 0..n {
        count.retain();
    }
    assert_eq!(count.current_count(), n + 1);
    let mut frees = 0;
    for k in 0..(n + 1) {
        let freed = count.release();
        if freed {
            frees += 1;
        }
        // The object is not freed before the last drop.
        assert_eq!(freed, k == n);
    }
    assert_eq!(frees, 1);
    assert_eq!(count.current_count(), 0);
}

#[test]
fn interleaved_clone_and_drop_orders_agree_on_the_net_count() {
    // clone, clone, drop, clone, drop, drop, drop: three clones, four
    // drops, in a different order than clone-everything-first.
    let mut count = RefCount::new();
    count.retain();
    count.retain();
    assert!(!count.release());
    count.retain();
    assert!(!count.release());
    assert!(!count.release());
    assert!(count.release());
    assert_eq!(count.current_count(), 0);

    // The same calls, clones first, end at the same count.
    let mut other = RefCount::new();
    other.retain();
    other.retain();
    other.retain();
    assert!(!other.release());
    assert!(!other.release());
    assert!(!other.release());
    assert!(other.release());
    assert_eq!(other.current_count(), count.current_count());
}

#[test]
fn zero_clones_single_drop_frees_immediately() {
    let mut count = RefCount::new();
    assert!(count.release());
    assert_eq!(count.current_count(), 0);
}
