use hermit_server::stats::{sort_batch, Stats};

#[test]
fn empty_batch_is_all_zero() {
    let s = Stats::from_sorted(&[]);
    assert_eq!(s.min, 0);
    assert_eq!(s.max, 0);
    assert_eq!(s.mean, 0);
    assert_eq!(s.p50, 0);
    assert_eq!(s.p99, 0);
}

#[test]
fn single_sample_batch() {
    let s = Stats::from_sorted(&[42]);
    assert_eq!(s.min, 42);
    assert_eq!(s.max, 42);
    assert_eq!(s.mean, 42);
    assert_eq!(s.p50, 42);
    assert_eq!(s.p99, 42);
}

#[test]
fn five_sample_batch_exact_values() {
    let s = Stats::from_sorted(&[1, 2, 3, 4, 5]);
    assert_eq!(s.min, 1);
    assert_eq!(s.max, 5);
    assert_eq!(s.mean, 3);
    // index 5 / 2 == 2
    assert_eq!(s.p50, 3);
    // index (5 * 99) / 100 == 4
    assert_eq!(s.p99, 5);
}

#[test]
fn percentiles_are_ordered_on_a_skewed_batch() {
    let batch: Vec<i64> = vec![0, 0, 0, 1, 1, 2, 3, 5, 8, 1000];
    let s = Stats::from_sorted(&batch);
    assert!(s.min <= s.p50);
    assert!(s.p50 <= s.p99);
    assert!(s.p99 <= s.max);
    assert_eq!(s.min, 0);
    assert_eq!(s.max, 1000);
    // index 10 / 2 == 5, index (10 * 99) / 100 == 9
    assert_eq!(s.p50, 2);
    assert_eq!(s.p99, 1000);
}

#[test]
fn hundred_sample_batch_p99_is_last() {
    let batch: Vec<i64> = (0..100).collect();
    let s = Stats::from_sorted(&batch);
    // index (100 * 99) / 100 == 99
    assert_eq!(s.p99, 99);
    assert_eq!(s.p50, 50);
    assert_eq!(s.mean, 49);
}

#[test]
fn mean_truncates_toward_zero_for_negative_sums() {
    let s = Stats::from_sorted(&[-3, -2]);
    // sum == -5, -5 / 2 truncates to -2, not -3
    assert_eq!(s.mean, -2);
    assert_eq!(s.min, -3);
    assert_eq!(s.max, -2);
}

#[test]
fn sort_batch_orders_ascending() {
    let mut v: Vec<i64> = vec![5, -1, 3, 3, 0];
    sort_batch(&mut v);
    assert_eq!(v, vec![-1, 0, 3, 3, 5]);
}

#[test]
fn sort_batch_keeps_short_batches() {
    let mut empty: Vec<i64> = vec![];
    sort_batch(&mut empty);
    assert!(empty.is_empty());

    let mut one: Vec<i64> = vec![7];
    sort_batch(&mut one);
    assert_eq!(one, vec![7]);
}
