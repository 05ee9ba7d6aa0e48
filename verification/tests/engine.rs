use list_mirror::dates::Timestamp;
use list_mirror::engine::{
    conclude, drain_results, plan_request, plan_response, CacheReadError, FilterListRecord,
    RefreshOutcome, RequestPlan, ResponseAction,
};

fn at(secs: i64) -> Timestamp {
    Timestamp { secs, nanos: 0 }
}

#[test]
fn fresh_cache_skips_the_network() {
    let plan = plan_request(Some(at(1_000)), at(1_030), 60);
    assert!(matches!(plan, RequestPlan::UseCache));
}

#[test]
fn stale_cache_sends_a_conditional_request() {
    let plan = plan_request(Some(at(1_596_433_613)), at(1_596_434_000), 60);
    match plan {
        RequestPlan::CondGet { if_modified_since } => {
            assert_eq!(
                if_modified_since.as_deref(),
                Some("Mon, 3 Aug 2020 05:46:53 +0000")
            );
        }
        _ => panic!("expected a conditional request"),
    }
}

#[test]
fn first_fetch_sends_an_unconditional_request() {
    let plan = plan_request(None, at(1_000), 60);
    match plan {
        RequestPlan::CondGet { if_modified_since } => assert!(if_modified_since.is_none()),
        _ => panic!("expected a request"),
    }
}

#[test]
fn ok_response_stores_the_body() {
    let action = plan_response(
        200,
        Some(String::from("fresh text")),
        Some("Mon, 03 Aug 2020 05:46:53 GMT"),
    );
    match action {
        ResponseAction::StoreAndFinish { text, set_times } => {
            assert_eq!(text, "fresh text");
            assert_eq!(set_times, Some(at(1_596_433_613)));
        }
        _ => panic!("expected the body to be stored"),
    }
}

#[test]
fn ok_response_with_unreadable_body_falls_back() {
    let action = plan_response(200, None, Some("Mon, 03 Aug 2020 05:46:53 GMT"));
    assert!(matches!(action, ResponseAction::Fallback));
}

#[test]
fn not_modified_touches_but_never_stores() {
    let action = plan_response(
        304,
        None,
        Some("Mon, 03 Aug 2020 05:46:53 GMT"),
    );
    match action {
        ResponseAction::TouchAndFallback { set_times } => {
            assert_eq!(set_times, Some(at(1_596_433_613)));
        }
        _ => panic!("expected a touch-and-fallback"),
    }
}

#[test]
fn not_modified_with_unparseable_date_skips_the_timestamp() {
    let action = plan_response(304, None, Some("never o'clock"));
    match action {
        ResponseAction::TouchAndFallback { set_times } => assert!(set_times.is_none()),
        _ => panic!("expected a touch-and-fallback"),
    }
}

#[test]
fn other_statuses_fall_back() {
    assert!(matches!(plan_response(500, None, None), ResponseAction::Fallback));
    assert!(matches!(
        plan_response(404, Some(String::from("gone")), None),
        ResponseAction::Fallback
    ));
}

#[test]
fn fetched_content_is_the_result() {
    let action = ResponseAction::StoreAndFinish {
        text: String::from("fresh text"),
        set_times: None,
    };
    let r = conclude(Some(action), None).unwrap();
    assert!(matches!(r.0, RefreshOutcome::Fetched));
    assert_eq!(r.1, "fresh text");
}

#[test]
fn fallback_serves_the_cached_content() {
    let r = conclude(Some(ResponseAction::Fallback), Some(String::from("old text"))).unwrap();
    assert!(matches!(r.0, RefreshOutcome::CacheFallback));
    assert_eq!(r.1, "old text");

    let r = conclude(
        Some(ResponseAction::TouchAndFallback { set_times: None }),
        Some(String::from("old text")),
    )
    .unwrap();
    assert!(matches!(r.0, RefreshOutcome::NotModified));
    assert_eq!(r.1, "old text");
}

#[test]
fn no_cache_and_no_fetch_is_a_hard_failure() {
    assert_eq!(conclude(Some(ResponseAction::Fallback), None), Err(CacheReadError));
    assert_eq!(conclude(None, None), Err(CacheReadError));
}

fn record(url: &str, expires: u64) -> FilterListRecord {
    FilterListRecord { url: String::from(url), expires }
}

/// Run one resource's refresh cycle on simulated surroundings, as the
/// orchestrating caller would.
fn simulate_cycle(
    rec: &FilterListRecord,
    cache: Option<&str>,
    modified: Option<Timestamp>,
    now: Timestamp,
    response: Option<(u16, Option<&str>, Option<&str>)>,
) -> Result<(FilterListRecord, String), CacheReadError> {
    let plan = plan_request(modified, now, rec.expires);
    let action = match plan {
        RequestPlan::UseCache => None,
        RequestPlan::CondGet { .. } => match response {
            Some((status, body, last_modified)) => Some(plan_response(
                status,
                body.map(String::from),
                last_modified,
            )),
            None => Some(ResponseAction::Fallback),
        },
    };
    let stored = matches!(action, Some(ResponseAction::StoreAndFinish { .. }));
    let cache_read = if stored { None } else { cache.map(String::from) };
    conclude(action, cache_read).map(|(_, text)| (rec.clone(), text))
}

#[test]
fn two_resources_fresh_and_stale_both_deliver() {
    let fresh = record("https://example.com/fresh", 3_600);
    let stale = record("https://example.com/stale", 60);
    let now = at(10_000);

    let fresh_result = simulate_cycle(&fresh, Some("cached text"), Some(at(9_500)), now, None);
    let stale_result = simulate_cycle(
        &stale,
        Some("old text"),
        Some(at(1_000)),
        now,
        Some((200, Some("new text"), None)),
    );

    // whichever completes first, the callback sees both, each with the right
    // content
    for results in [
        vec![fresh_result.clone(), stale_result.clone()],
        vec![stale_result, fresh_result],
    ] {
        let drained = drain_results(results);
        assert!(drained.error.is_none());
        assert_eq!(drained.delivered.len(), 2);
        for (rec, text) in &drained.delivered {
            if rec.url == "https://example.com/fresh" {
                assert_eq!(text, "cached text");
            } else {
                assert_eq!(rec.url, "https://example.com/stale");
                assert_eq!(text, "new text");
            }
        }
    }
}

#[test]
fn hard_failure_aborts_without_delivering_that_resource() {
    let good = record("https://example.com/good", 60);
    let bad = record("https://example.com/bad", 60);
    let now = at(10_000);

    let good_result = simulate_cycle(
        &good,
        Some("good text"),
        Some(at(1_000)),
        now,
        Some((200, Some("newer text"), None)),
    );
    // no cache on disk, and the request fails
    let bad_result = simulate_cycle(&bad, None, None, now, None);
    assert_eq!(bad_result, Err(CacheReadError));

    let drained = drain_results(vec![good_result.clone(), bad_result.clone()]);
    assert_eq!(drained.error, Some(CacheReadError));
    assert_eq!(drained.delivered.len(), 1);
    assert_eq!(drained.delivered[0].1, "newer text");

    // the failure aborts even when it completes first
    let drained = drain_results(vec![bad_result, good_result]);
    assert_eq!(drained.error, Some(CacheReadError));
    assert!(drained.delivered.is_empty());
}
