use std::path::{Path, PathBuf};
use std::sync::Arc;
use std::time::Duration;

use fm_bridge::{Bridge, DEFAULT_MAX_CONCURRENCY};

fn bridge() -> Bridge {
    Bridge::new(PathBuf::from("/tmp/FMBridge"))
}

#[test]
fn concurrency_limit_defaults_to_one_and_clamps_zero() {
    let bridge = bridge();
    assert_eq!(bridge.max_concurrency_limit(), DEFAULT_MAX_CONCURRENCY);
    assert_eq!(bridge.max_concurrency_limit(), 1);
    assert_eq!(bridge.available_slots(), 1);

    let clamped = bridge.clone().max_concurrency(0);
    assert_eq!(clamped.max_concurrency_limit(), 1);

    let raised = bridge.max_concurrency(8);
    assert_eq!(raised.max_concurrency_limit(), 8);
    assert_eq!(raised.available_slots(), 8);
}

#[test]
fn concurrency_defaults_to_one() {
    let bridge = bridge();
    assert_eq!(bridge.max_concurrency_limit(), 1);
    assert_eq!(bridge.max_concurrency_limit(), DEFAULT_MAX_CONCURRENCY);
    assert_eq!(bridge.available_slots(), 1);
}

#[test]
fn a_fresh_bridge_allows_five_minutes() {
    let bridge = bridge();
    assert_eq!(bridge.binary_path(), Path::new("/tmp/FMBridge"));
    assert_eq!(bridge.time_limit(), Some(Duration::from_secs(300)));
}

#[test]
fn timeouts_are_replaced_or_disabled() {
    let bridge = bridge().max_concurrency(3).timeout(Some(Duration::from_millis(300)));
    assert_eq!(bridge.time_limit(), Some(Duration::from_millis(300)));
    assert_eq!(bridge.max_concurrency_limit(), 3);
    let patient = bridge.timeout(None);
    assert_eq!(patient.time_limit(), None);
    assert_eq!(patient.binary_path(), Path::new("/tmp/FMBridge"));
}

#[test]
fn clones_share_one_budget_until_it_is_replaced() {
    let bridge = bridge().max_concurrency(4);
    let worker = bridge.clone();
    assert_eq!(bridge.max_concurrency_limit(), 4);
    assert_eq!(worker.available_slots(), 4);

    let permit = bridge.limiter().try_acquire_owned().expect("a free slot");
    assert_eq!(worker.available_slots(), 3);
    assert!(Arc::ptr_eq(&bridge.limiter(), &worker.limiter()));

    let separate = worker.clone().max_concurrency(2);
    assert_eq!(separate.available_slots(), 2);
    assert!(!Arc::ptr_eq(&separate.limiter(), &worker.limiter()));

    drop(permit);
    assert_eq!(worker.available_slots(), 4);
}

#[test]
fn a_limit_is_a_hard_one() {
    let bridge = bridge().max_concurrency(2);
    let first = bridge.limiter().try_acquire_owned();
    let second = bridge.limiter().try_acquire_owned();
    assert!(first.is_ok() && second.is_ok());
    assert!(bridge.limiter().try_acquire_owned().is_err());
    assert_eq!(bridge.available_slots(), 0);
}

#[test]
fn the_largest_limit_is_an_eighth() {
    let bridge = bridge().max_concurrency(usize::MAX / 8);
    assert_eq!(bridge.max_concurrency_limit(), usize::MAX / 8);
    assert_eq!(bridge.available_slots(), usize::MAX / 8);
}

#[test]
fn a_new_limit_is_a_new_budget_even_if_it_is_the_same() {
    let bridge = bridge().max_concurrency(2);
    let first = bridge.limiter().try_acquire_owned();
    let second = bridge.limiter().try_acquire_owned();
    assert!(first.is_ok() && second.is_ok());
    assert_eq!(bridge.available_slots(), 0);

    let separate = bridge.clone().max_concurrency(2);
    assert_eq!(separate.max_concurrency_limit(), 2);
    assert_eq!(separate.available_slots(), 2);
    assert_eq!(separate.binary_path(), bridge.binary_path());
    assert_eq!(separate.time_limit(), bridge.time_limit());

    let worker = separate.clone();
    let third = worker.limiter().try_acquire_owned();
    assert!(third.is_ok());
    assert_eq!(separate.available_slots(), 1);
    assert_eq!(bridge.available_slots(), 0);
    drop(first);
    assert_eq!(bridge.available_slots(), 1);
    assert_eq!(separate.available_slots(), 1);
}
