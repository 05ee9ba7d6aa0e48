use list_mirror::dates::Timestamp;
use list_mirror::freshness::needs_revalidation;

fn at(secs: i64, nanos: u32) -> Timestamp {
    Timestamp { secs, nanos }
}

#[test]
fn missing_cache_is_always_stale() {
    assert!(needs_revalidation(None, at(0, 0), 0));
    assert!(needs_revalidation(None, at(1_596_433_613, 0), u64::MAX));
}

#[test]
fn entry_older_than_threshold_is_stale() {
    let modified = at(1_000, 0);
    let now = at(1_061, 0);
    assert!(needs_revalidation(Some(modified), now, 60));
}

#[test]
fn entry_within_threshold_is_fresh() {
    let modified = at(1_000, 0);
    let now = at(1_060, 0);
    assert!(!needs_revalidation(Some(modified), now, 60));
    assert!(!needs_revalidation(Some(modified), now, u64::MAX));
}

#[test]
fn elapsed_seconds_are_whole_seconds() {
    // 60.999999999 seconds elapsed: not over a 60 second threshold.
    let modified = at(1_000, 1);
    let now = at(1_061, 0);
    assert!(!needs_revalidation(Some(modified), now, 60));
    // exactly 61 seconds elapsed: over it.
    let now = at(1_061, 1);
    assert!(needs_revalidation(Some(modified), now, 60));
}

#[test]
fn modification_time_in_the_future_is_stale() {
    let modified = at(2_000, 0);
    let now = at(1_000, 0);
    assert!(needs_revalidation(Some(modified), now, u64::MAX));
    // even a single nanosecond ahead
    let modified = at(1_000, 1);
    let now = at(1_000, 0);
    assert!(needs_revalidation(Some(modified), now, u64::MAX));
}
