use vstd::prelude::*;
use crate::dates::{Timestamp, origin_date_spec, rfc2822_of, if_modified_since_value, parse_origin_date};
use crate::freshness::{stale, needs_revalidation};

verus! {

/// One remote list to mirror: its origin URL and its staleness threshold in
/// seconds.
#[derive(Clone, Debug, PartialEq, Eq)]
pub struct FilterListRecord {
    pub url: String,
    pub expires: u64,
}

/// The first step of a refresh cycle: serve the cache as it is, or ask the
/// origin, attaching the previously observed modification time where one is
/// known.
pub enum RequestPlan {
    /// The cache is within its threshold: skip the network entirely and read
    /// the cached text as the result.
    UseCache,
    /// Issue a conditional GET, with this `if-modified-since` header value
    /// when one could be rendered.
    CondGet { if_modified_since: Option<String> },
}

/// What the engine does with an origin response.
pub enum ResponseAction {
    /// A 200 response with a readable body: write the body to the cache
    /// file, apply the timestamp where one is given, and the body is the
    /// result.
    StoreAndFinish { text: String, set_times: Option<Timestamp> },
    /// A 304 response: leave the cached content alone, apply the timestamp
    /// where one is given, and the cached content is the result.
    TouchAndFallback { set_times: Option<Timestamp> },
    /// Any other status, or an unreadable body: leave the cache alone and
    /// the cached content is the result.
    Fallback,
}

/// How one refresh cycle ended.
#[derive(Clone, Copy, PartialEq, Eq, Structural, Debug)]
pub enum RefreshOutcome {
    /// The cache was within its threshold; no request was made.
    Fresh,
    /// The origin returned new content, now cached.
    Fetched,
    /// The origin confirmed that the cache is current.
    NotModified,
    /// The request failed or was unusable; the prior cache was served.
    CacheFallback,
}

/// No usable content: nothing was fetched and no cache could be read. The
/// one unrecoverable failure of a refresh cycle.
#[derive(Clone, Copy, PartialEq, Eq, Structural, Debug)]
pub struct CacheReadError;

/// Plan the first step of a refresh cycle. `modified` is the cache file's
/// modification time, absent when there is no cache file; `now` the current
/// time; `threshold_secs` the resource's staleness threshold.
pub fn plan_request(modified: Option<Timestamp>, now: Timestamp, threshold_secs: u64) -> (r:
    RequestPlan)
    ensures
        !stale(modified, now, threshold_secs) ==> r is UseCache,
        stale(modified, now, threshold_secs) ==> r is CondGet,
        r matches RequestPlan::CondGet { if_modified_since } ==> match modified {
            Option::None => if_modified_since is None,
            Option::Some(m) => {
                &&& (if_modified_since matches Some(h) ==> h@ == rfc2822_of(m.secs, m.nanos))
                &&& (0 <= m.secs <= 253_402_300_799 && m.nanos < 1_000_000_000
                    ==> if_modified_since is Some)
            },
        },
{
    if needs_revalidation(modified, now, threshold_secs) {
        let header = match modified {
            None => None,
            Some(m) => if_modified_since_value(m),
        };
        RequestPlan::CondGet { if_modified_since: header }
    } else {
        RequestPlan::UseCache
    }
}

/// What `compute_target_timestamp` yields for a last-modified header.
pub open spec fn target_timestamp_spec(last_modified: Option<Seq<char>>) -> Option<Timestamp> {
    match last_modified {
        Option::None => Option::None,
        Option::Some(s) => origin_date_spec(s),
    }
}

/// The timestamp to apply to the cache file: the parsed `last-modified`
/// header, where present and parseable. A missing or unparseable header is
/// non-fatal: no timestamp is applied.
pub fn compute_target_timestamp(last_modified: Option<&str>) -> (r: Option<Timestamp>)
    ensures
        r == target_timestamp_spec(last_modified.deep_view()),
        r matches Some(t) ==> t.wf(),
{
    match last_modified {
        None => None,
        Some(s) => match parse_origin_date(s) {
            Ok(t) => Some(t),
            Err(_) => None,
        },
    }
}

/// Interpret an origin response: its status code, its body where it could be
/// read as text, and its `last-modified` header where present.
pub fn plan_response(status: u16, body: Option<String>, last_modified: Option<&str>) -> (r:
    ResponseAction)
    ensures
        status == 200 && body is Some ==> (r matches ResponseAction::StoreAndFinish {
            text,
            set_times,
        } && Some(text) == body && set_times == target_timestamp_spec(last_modified.deep_view())),
        status == 200 && body is None ==> r is Fallback,
        status == 304 ==> (r matches ResponseAction::TouchAndFallback { set_times } && set_times
            == target_timestamp_spec(last_modified.deep_view())),
        status != 200 && status != 304 ==> r is Fallback,
{
    if status == 200 {
        match body {
            Some(text) => {
                let set_times = compute_target_timestamp(last_modified);
                ResponseAction::StoreAndFinish { text, set_times }
            },
            None => ResponseAction::Fallback,
        }
    } else if status == 304 {
        let set_times = compute_target_timestamp(last_modified);
        ResponseAction::TouchAndFallback { set_times }
    } else {
        ResponseAction::Fallback
    }
}

/// How a faithfully executed action changes the cached content.
pub open spec fn content_after(cache: Option<Seq<char>>, action: ResponseAction) -> Option<
    Seq<char>,
> {
    match action {
        ResponseAction::StoreAndFinish { text, .. } => Option::Some(text@),
        _ => cache,
    }
}

/// Law: a 304 response never alters the cached content, whatever timestamp
/// it carries; combined with the contract of `plan_response`, the times
/// applied to the file are exactly the parsed `last-modified` header, so a
/// 304 changes the file's timestamp only where that header is present and
/// parseable.
pub proof fn lemma_not_modified_preserves_content(
    cache: Option<Seq<char>>,
    set_times: Option<Timestamp>,
)
    ensures
        content_after(cache, (ResponseAction::TouchAndFallback { set_times })) == cache,
{
}

/// Law: content is never lost. Only a 200 response replaces the cached
/// content, and it replaces it with the body it carried; every other action
/// leaves the cache exactly as it was. So if the cache held non-empty
/// content, and any stored body is non-empty, non-empty content remains
/// after the cycle; applied cycle after cycle, once the origin has returned
/// a 200 with a non-empty body the cache stays present and non-empty.
pub proof fn lemma_content_preserved(cache: Option<Seq<char>>, action: ResponseAction)
    ensures
        !(action is StoreAndFinish) ==> content_after(cache, action) == cache,
        action matches ResponseAction::StoreAndFinish { text, .. } ==> content_after(cache, action)
            == Option::Some(text@),
        (match cache {
            Option::Some(c) => c.len() > 0,
            Option::None => false,
        } && match action {
            ResponseAction::StoreAndFinish { text, .. } => text@.len() > 0,
            _ => true,
        }) ==> match content_after(cache, action) {
            Option::Some(c) => c.len() > 0,
            Option::None => false,
        },
{
}

/// How a whole cycle — one that may have made no request at all — changes
/// the cached content.
pub open spec fn content_after_cycle(
    cache: Option<Seq<char>>,
    action: Option<ResponseAction>,
) -> Option<Seq<char>> {
    match action {
        Option::Some(a) => content_after(cache, a),
        Option::None => cache,
    }
}

/// The content a cycle hands to the caller: the freshly stored body where
/// one was stored, else the prior cached content; a hard failure where
/// neither exists.
pub open spec fn cycle_content_spec(
    cache: Option<Seq<char>>,
    action: Option<ResponseAction>,
) -> Result<Seq<char>, CacheReadError> {
    match action {
        Option::Some(ResponseAction::StoreAndFinish { text, .. }) => Result::Ok(text@),
        _ => match cache {
            Option::Some(c) => Result::Ok(c),
            Option::None => Result::Err(CacheReadError),
        },
    }
}

/// Law: the invariant of a refresh cycle. A cycle that does not hard-fail
/// leaves the cache holding content, and the content handed to the caller is
/// exactly what the cache then holds; a hard failure arises precisely when
/// nothing was stored and no cache existed, and then the cache is still
/// absent.
pub proof fn lemma_cycle_invariant(cache: Option<Seq<char>>, action: Option<ResponseAction>)
    ensures
        cycle_content_spec(cache, action) matches Ok(c) ==> content_after_cycle(cache, action)
            == Option::Some(c),
        cycle_content_spec(cache, action) is Err <==> (cache is None && !(action matches Some(
            ResponseAction::StoreAndFinish { .. },
        ))),
        cycle_content_spec(cache, action) is Err ==> content_after_cycle(cache, action) is None,
{
}

/// Conclude a refresh cycle. `action` is what the response called for, or
/// `None` when the cache was fresh and no request was made; `cache_read` is
/// the cached text, where a read succeeded, for every path that falls back
/// to it. The error is the cycle's hard failure: no fetched content and no
/// readable cache.
pub fn conclude(action: Option<ResponseAction>, cache_read: Option<String>) -> (r: Result<
    (RefreshOutcome, String),
    CacheReadError,
>)
    ensures
        r matches Ok(p) ==> cycle_content_spec(cache_read.deep_view(), action) == Result::Ok::<
            Seq<char>,
            CacheReadError,
        >(p.1@),
        r is Err ==> cycle_content_spec(cache_read.deep_view(), action) is Err,
        action matches Some(ResponseAction::StoreAndFinish { text, .. }) ==> r == Ok::<
            _,
            CacheReadError,
        >((RefreshOutcome::Fetched, text)),
        action matches Some(a) && a is TouchAndFallback ==> match cache_read {
            Option::Some(c) => r == Ok::<_, CacheReadError>((RefreshOutcome::NotModified, c)),
            Option::None => r == Err::<(RefreshOutcome, String), _>(CacheReadError),
        },
        action matches Some(a) && a is Fallback ==> match cache_read {
            Option::Some(c) => r == Ok::<_, CacheReadError>((RefreshOutcome::CacheFallback, c)),
            Option::None => r == Err::<(RefreshOutcome, String), _>(CacheReadError),
        },
        action is None ==> match cache_read {
            Option::Some(c) => r == Ok::<_, CacheReadError>((RefreshOutcome::Fresh, c)),
            Option::None => r == Err::<(RefreshOutcome, String), _>(CacheReadError),
        },
{
    match action {
        Some(ResponseAction::StoreAndFinish { text, .. }) => Ok((RefreshOutcome::Fetched, text)),
        Some(ResponseAction::TouchAndFallback { .. }) => match cache_read {
            Some(c) => Ok((RefreshOutcome::NotModified, c)),
            None => Err(CacheReadError),
        },
        Some(ResponseAction::Fallback) => match cache_read {
            Some(c) => Ok((RefreshOutcome::CacheFallback, c)),
            None => Err(CacheReadError),
        },
        None => match cache_read {
            Some(c) => Ok((RefreshOutcome::Fresh, c)),
            None => Err(CacheReadError),
        },
    }
}

/// The cached content after a whole history of refresh cycles, given the
/// action each cycle executed, earliest first.
pub open spec fn content_after_history(
    cache: Option<Seq<char>>,
    actions: Seq<ResponseAction>,
) -> Option<Seq<char>>
    decreases actions.len(),
{
    if actions.len() == 0 {
        cache
    } else {
        content_after_history(content_after(cache, actions[0]), actions.drop_first())
    }
}

/// Whether an action stores an empty body: the one way cached content can
/// shrink to nothing.
pub open spec fn stores_empty_body(a: ResponseAction) -> bool {
    match a {
        ResponseAction::StoreAndFinish { text, .. } => text@.len() == 0,
        _ => false,
    }
}

proof fn lemma_nonempty_preserved_by_history(cache: Option<Seq<char>>, actions: Seq<ResponseAction>)
    requires
        cache matches Some(c) && c.len() > 0,
        forall|j: int| 0 <= j < actions.len() ==> !stores_empty_body(#[trigger] actions[j]),
    ensures
        content_after_history(cache, actions) matches Some(c) && c.len() > 0,
    decreases actions.len(),
{
    if actions.len() > 0 {
        lemma_nonempty_preserved_by_history(content_after(cache, actions[0]), actions.drop_first());
    }
}

/// Law: once some refresh cycle has stored a non-empty body — the origin
/// returned a 200 with non-empty content — the cache exists and is non-empty
/// after every later cycle, provided no later response stored an empty body.
pub proof fn lemma_nonempty_cache_persists(
    cache: Option<Seq<char>>,
    actions: Seq<ResponseAction>,
    i: int,
)
    requires
        0 <= i < actions.len(),
        actions[i] matches ResponseAction::StoreAndFinish { text, .. } && text@.len() > 0,
        forall|j: int| i < j < actions.len() ==> !stores_empty_body(#[trigger] actions[j]),
    ensures
        content_after_history(cache, actions) matches Some(c) && c.len() > 0,
    decreases actions.len(),
{
    if i == 0 {
        lemma_nonempty_preserved_by_history(content_after(cache, actions[0]), actions.drop_first());
    } else {
        lemma_nonempty_cache_persists(content_after(cache, actions[0]), actions.drop_first(), i - 1);
    }
}

/// The results a batch consumer delivers to the caller: every completed
/// resource, in completion order, up to but not including the first hard
/// failure.
pub open spec fn delivered_spec(rs: Seq<Result<(FilterListRecord, String), CacheReadError>>) -> Seq<
    (FilterListRecord, String),
>
    decreases rs.len(),
{
    if rs.len() == 0 {
        Seq::empty()
    } else {
        match rs[0] {
            Result::Ok(p) => seq![p] + delivered_spec(rs.drop_first()),
            Result::Err(_) => Seq::empty(),
        }
    }
}

/// The first hard failure in a completion-ordered sequence of results, if
/// any.
pub open spec fn first_error_spec(
    rs: Seq<Result<(FilterListRecord, String), CacheReadError>>,
) -> Option<CacheReadError>
    decreases rs.len(),
{
    if rs.len() == 0 {
        Option::None
    } else {
        match rs[0] {
            Result::Ok(_) => first_error_spec(rs.drop_first()),
            Result::Err(e) => Option::Some(e),
        }
    }
}

/// What a drained batch hands to the caller: the delivered pairs, and the
/// aborting hard failure if one was reached.
pub struct BatchDrain {
    pub delivered: Vec<(FilterListRecord, String)>,
    pub error: Option<CacheReadError>,
}

/// Drain a completion-ordered sequence of per-resource results as the batch
/// consumer does: deliver each completed pair in order, and stop at the
/// first hard failure, discarding everything after it.
pub fn drain_results(results: Vec<Result<(FilterListRecord, String), CacheReadError>>) -> (r:
    BatchDrain)
    ensures
        r.delivered@ == delivered_spec(results@),
        r.error == first_error_spec(results@),
{
    let ghost orig = results@;
    let mut rest = results;
    let mut delivered: Vec<(FilterListRecord, String)> = Vec::new();
    let mut error: Option<CacheReadError> = None;
    while rest.len() > 0 && error.is_none()
        invariant
            error is None ==> delivered_spec(orig) == delivered@ + delivered_spec(rest@),
            error is None ==> first_error_spec(orig) == first_error_spec(rest@),
            error is Some ==> delivered_spec(orig) == delivered@,
            error is Some ==> first_error_spec(orig) == error,
        decreases rest.len(),
    {
        proof {
            assert(rest@.remove(0) =~= rest@.drop_first());
        }
        let ghost prev = rest@;
        let item = rest.remove(0);
        match item {
            Ok(p) => {
                delivered.push(p);
                proof {
                    assert(delivered_spec(prev) == seq![p] + delivered_spec(rest@));
                    assert(delivered_spec(orig) =~= delivered@ + delivered_spec(rest@));
                }
            },
            Err(e) => {
                error = Some(e);
                proof {
                    assert(delivered_spec(prev) =~= Seq::<(FilterListRecord, String)>::empty());
                    assert(delivered_spec(orig) =~= delivered@);
                }
            },
        }
    }
    BatchDrain { delivered, error }
}

} // verus!
