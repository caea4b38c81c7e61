use voting::address::Address;
use voting::store::RecordStore;
use voting::window::{judge, Phase, Verdict, WindowPolicy};

const STRICT: WindowPolicy = WindowPolicy { strict_start: true, inclusive_end: true };
const INCLUSIVE: WindowPolicy = WindowPolicy { strict_start: false, inclusive_end: true };
const HALF_OPEN: WindowPolicy = WindowPolicy { strict_start: false, inclusive_end: false };

#[test]
fn empty_store_holds_nothing() {
    let store: RecordStore<Address> = RecordStore::new();
    assert!(store.get(&Address::new([1u8; 32])).is_none());
    assert!(!store.contains(&Address::new([1u8; 32])));
}

#[test]
fn put_then_get() {
    let mut store: RecordStore<Address> = RecordStore::new();
    let at = Address::new([1u8; 32]);
    let elsewhere = Address::new([2u8; 32]);
    store.put(at, Address::new([10u8; 32]));
    assert_eq!(store.get(&at), Some(&Address::new([10u8; 32])));
    assert!(store.contains(&at));
    assert!(store.get(&elsewhere).is_none());
}

#[test]
fn put_replaces_the_record_at_an_occupied_address() {
    let mut store: RecordStore<Address> = RecordStore::new();
    let first = Address::new([1u8; 32]);
    let second = Address::new([2u8; 32]);
    store.put(first, Address::new([10u8; 32]));
    store.put(second, Address::new([20u8; 32]));
    store.put(first, Address::new([30u8; 32]));
    assert_eq!(store.get(&first), Some(&Address::new([30u8; 32])));
    assert_eq!(store.get(&second), Some(&Address::new([20u8; 32])));
}

#[test]
fn strict_start_opens_after_the_start() {
    assert_eq!(STRICT.phase(100, 200, 99), Phase::NotStarted);
    assert_eq!(STRICT.phase(100, 200, 100), Phase::NotStarted);
    assert_eq!(STRICT.phase(100, 200, 101), Phase::Open);
    assert_eq!(STRICT.phase(100, 200, 200), Phase::Open);
    assert_eq!(STRICT.phase(100, 200, 201), Phase::Ended);
}

#[test]
fn inclusive_start_opens_at_the_start() {
    assert_eq!(INCLUSIVE.phase(100, 200, 99), Phase::NotStarted);
    assert_eq!(INCLUSIVE.phase(100, 200, 100), Phase::Open);
    assert_eq!(INCLUSIVE.phase(100, 200, 200), Phase::Open);
    assert_eq!(INCLUSIVE.phase(100, 200, 201), Phase::Ended);
}

#[test]
fn exclusive_end_closes_at_the_end() {
    assert_eq!(HALF_OPEN.phase(100, 200, 199), Phase::Open);
    assert_eq!(HALF_OPEN.phase(100, 200, 200), Phase::Ended);
}

#[test]
fn negative_time_is_before_every_start() {
    assert_eq!(STRICT.phase(0, 200, -1), Phase::NotStarted);
    assert_eq!(INCLUSIVE.phase(0, 200, -1), Phase::NotStarted);
    assert_eq!(INCLUSIVE.phase(0, 200, i64::MIN), Phase::NotStarted);
    assert_eq!(INCLUSIVE.phase(0, 200, 0), Phase::Open);
}

#[test]
fn times_beyond_the_signed_range_are_compared_as_numbers() {
    let far = (i64::MAX as u64) + 10;
    assert_eq!(STRICT.phase(far, u64::MAX, i64::MAX), Phase::NotStarted);
    assert_eq!(STRICT.phase(0, far, i64::MAX), Phase::Open);
}

#[test]
fn a_window_that_ends_before_it_starts_counts_as_not_started() {
    assert_eq!(STRICT.phase(200, 100, 150), Phase::NotStarted);
    assert_eq!(INCLUSIVE.phase(200, 100, 150), Phase::NotStarted);
    assert_eq!(STRICT.phase(200, 100, 250), Phase::Ended);
}

#[test]
fn the_window_is_judged_before_the_voter() {
    assert_eq!(judge(&STRICT, 100, 200, true, 100), Verdict::NotStarted);
    assert_eq!(judge(&STRICT, 100, 200, true, 201), Verdict::Ended);
    assert_eq!(judge(&STRICT, 100, 200, true, 150), Verdict::AlreadyVoted);
    assert_eq!(judge(&STRICT, 100, 200, false, 150), Verdict::Accepted);
    assert_eq!(judge(&INCLUSIVE, 100, 200, false, 100), Verdict::Accepted);
}
