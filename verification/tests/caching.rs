use cached_property::cache::CachedRecord;

#[test]
fn prefetch_is_idempotent() {
    let mut rec: CachedRecord<u64> = CachedRecord::new(42);
    let (first, first_ran) = rec.prefetch();
    let (second, second_ran) = rec.prefetch();
    assert_eq!(first, 42);
    assert_eq!(second, first);
    // the underlying computation ran at most once across both calls
    assert!(first_ran);
    assert!(!second_ran);
}

#[test]
fn cached_read_after_prefetch_is_a_hit() {
    let mut rec: CachedRecord<u64> = CachedRecord::new(7);
    let (prefetched, _) = rec.prefetch();
    let (read, ran) = rec.cached_read();
    assert_eq!(read, prefetched);
    assert!(!ran);
}

#[test]
fn cached_read_before_prefetch_computes_without_storing() {
    let rec: CachedRecord<u64> = CachedRecord::new(9);
    let direct = rec.compute();
    let (read, ran) = rec.cached_read();
    assert_eq!(read, direct);
    assert!(ran);
    // the slot is still absent: a later read computes again
    let (read_again, ran_again) = rec.cached_read();
    assert_eq!(read_again, 9);
    assert!(ran_again);
}

#[test]
fn new_record_has_an_absent_slot() {
    let rec: CachedRecord<i32> = CachedRecord::new(-3);
    assert_eq!(rec.underlying, -3);
    assert_eq!(rec.slot, None);
}

#[test]
fn prefetch_populates_the_slot() {
    let mut rec: CachedRecord<u64> = CachedRecord::new(5);
    let (value, ran) = rec.prefetch();
    assert_eq!(value, 5);
    assert!(ran);
    assert_eq!(rec.slot, Some(5));
}
