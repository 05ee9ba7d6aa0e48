use vstd::prelude::*;
use crate::dates::Timestamp;

verus! {

/// The instant of a timestamp, in nanoseconds since the Unix epoch.
pub open spec fn instant_nanos(t: Timestamp) -> int {
    t.secs * 1_000_000_000 + t.nanos
}

/// The staleness rule: a missing cache entry is always stale; otherwise the
/// entry is stale when its modification time lies in the future (no elapsed
/// duration can be formed), or when the elapsed whole seconds exceed the
/// threshold.
pub open spec fn stale(modified: Option<Timestamp>, now: Timestamp, threshold_secs: u64) -> bool {
    match modified {
        Option::None => true,
        Option::Some(m) => {
            let elapsed = instant_nanos(now) - instant_nanos(m);
            elapsed < 0 || elapsed / 1_000_000_000 > threshold_secs
        },
    }
}

/// Decide whether a cache entry must be revalidated against the origin:
/// `modified` is the entry's modification time, absent when there is no
/// cache file, and `now` the current time.
pub fn needs_revalidation(modified: Option<Timestamp>, now: Timestamp, threshold_secs: u64) -> (r: bool)
    ensures
        r == stale(modified, now, threshold_secs),
{
    match modified {
        None => true,
        Some(m) => {
            let now_n: i128 = (now.secs as i128) * 1_000_000_000 + (now.nanos as i128);
            let mod_n: i128 = (m.secs as i128) * 1_000_000_000 + (m.nanos as i128);
            if now_n < mod_n {
                true
            } else {
                (now_n - mod_n) / 1_000_000_000 > (threshold_secs as i128)
            }
        },
    }
}

} // verus!
