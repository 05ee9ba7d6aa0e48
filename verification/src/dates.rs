use vstd::prelude::*;

verus! {

/// An instant in time: whole seconds since the Unix epoch, together with the
/// nanoseconds since the last whole second.
///
/// A nanosecond count at or above 1,000,000,000 can only come from a date
/// source that represents a leap second; it never reaches 2,000,000,000.
#[derive(Clone, Copy, PartialEq, Eq, Structural, Debug)]
pub struct Timestamp {
    pub secs: i64,
    pub nanos: u32,
}

impl Timestamp {
    /// The nanosecond part stays within the range that date sources produce.
    pub open spec fn wf(self) -> bool {
        self.nanos < 2_000_000_000
    }
}

/// The origin sent a date string that none of the accepted formats matches.
#[derive(Clone, Copy, PartialEq, Eq, Structural, Debug)]
pub struct DateParseError;

// What chrono's RFC 2822 parser yields for a given string: `None` where the
// parse fails, else the instant as (seconds, nanoseconds since the second).
pub uninterp spec fn rfc2822_parse(s: Seq<char>) -> Option<(i64, u32)>;

// What chrono's RFC 3339 parser yields for a given string.
pub uninterp spec fn rfc3339_parse(s: Seq<char>) -> Option<(i64, u32)>;

// What chrono's relaxed datetime parser (the `FromStr` fallback) yields.
pub uninterp spec fn relaxed_parse(s: Seq<char>) -> Option<(i64, u32)>;

// The RFC 2822 rendering that chrono gives an instant.
pub uninterp spec fn rfc2822_of(secs: i64, nanos: u32) -> Seq<char>;

/// Relies on chrono::DateTime::parse_from_rfc2822 to read an RFC 2822 date
/// string; the result depends on the string alone. The nanosecond bound is
/// chrono's: timestamp_subsec_nanos exceeds 999,999,999 only for a leap
/// second and stays below 2,000,000,000.
#[verifier::external_body]
fn parse_rfc2822(s: &str) -> (r: Option<(i64, u32)>)
    ensures
        r == rfc2822_parse(s@),
        r matches Some(p) ==> p.1 < 2_000_000_000,
{
    chrono::DateTime::parse_from_rfc2822(s)
        .ok()
        .map(|d| (d.timestamp(), d.timestamp_subsec_nanos()))
}

/// Relies on chrono::DateTime::parse_from_rfc3339, as `parse_rfc2822` does on
/// its parser.
#[verifier::external_body]
fn parse_rfc3339(s: &str) -> (r: Option<(i64, u32)>)
    ensures
        r == rfc3339_parse(s@),
        r matches Some(p) ==> p.1 < 2_000_000_000,
{
    chrono::DateTime::parse_from_rfc3339(s)
        .ok()
        .map(|d| (d.timestamp(), d.timestamp_subsec_nanos()))
}

/// Relies on chrono's `FromStr` for `DateTime<FixedOffset>`, a relaxed
/// RFC 3339 parse, as `parse_rfc2822` does on its parser.
#[verifier::external_body]
fn parse_relaxed(s: &str) -> (r: Option<(i64, u32)>)
    ensures
        r == relaxed_parse(s@),
        r matches Some(p) ==> p.1 < 2_000_000_000,
{
    s.parse::<chrono::DateTime<chrono::FixedOffset>>()
        .ok()
        .map(|d| (d.timestamp(), d.timestamp_subsec_nanos()))
}

/// Relies on chrono: DateTime::<Utc>::from_timestamp builds the instant,
/// returning None on an out-of-range second or an invalid nanosecond count
/// (a count below 1,000,000,000 is always valid), and to_rfc2822 renders it;
/// the text depends on the instant alone. The bound on the seconds keeps the
/// year within 1970..=9999, where to_rfc2822 cannot panic.
#[verifier::external_body]
fn format_rfc2822(secs: i64, nanos: u32) -> (r: Option<String>)
    requires
        0 <= secs <= 253_402_300_799,
    ensures
        r matches Some(t) ==> t@ == rfc2822_of(secs, nanos),
        nanos < 1_000_000_000 ==> r is Some,
{
    chrono::DateTime::<chrono::Utc>::from_timestamp(secs, nanos).map(|d| d.to_rfc2822())
}

/// The instant the origin-date parser yields: RFC 2822 first, then RFC 3339,
/// then the relaxed fallback format.
pub open spec fn origin_date_spec(s: Seq<char>) -> Option<Timestamp> {
    match rfc2822_parse(s) {
        Option::Some(p) => Option::Some(Timestamp { secs: p.0, nanos: p.1 }),
        Option::None => match rfc3339_parse(s) {
            Option::Some(p) => Option::Some(Timestamp { secs: p.0, nanos: p.1 }),
            Option::None => match relaxed_parse(s) {
                Option::Some(p) => Option::Some(Timestamp { secs: p.0, nanos: p.1 }),
                Option::None => Option::None,
            },
        },
    }
}

/// Parse a date string from the origin, trying RFC 2822, then RFC 3339, then
/// a relaxed fallback; an error means no format matched.
pub fn parse_origin_date(s: &str) -> (r: Result<Timestamp, DateParseError>)
    ensures
        r matches Ok(t) ==> origin_date_spec(s@) == Some(t) && t.wf(),
        r is Err <==> origin_date_spec(s@) is None,
{
    match parse_rfc2822(s) {
        Some(p) => Ok(Timestamp { secs: p.0, nanos: p.1 }),
        None => match parse_rfc3339(s) {
            Some(p) => Ok(Timestamp { secs: p.0, nanos: p.1 }),
            None => match parse_relaxed(s) {
                Some(p) => Ok(Timestamp { secs: p.0, nanos: p.1 }),
                None => Err(DateParseError),
            },
        },
    }
}

/// The `if-modified-since` header value for a cached instant: its RFC 2822
/// rendering, where chrono can produce one.
pub fn if_modified_since_value(m: Timestamp) -> (r: Option<String>)
    ensures
        r matches Some(h) ==> h@ == rfc2822_of(m.secs, m.nanos),
        0 <= m.secs <= 253_402_300_799 && m.nanos < 1_000_000_000 ==> r is Some,
{
    if m.secs >= 0 && m.secs <= 253_402_300_799 {
        format_rfc2822(m.secs, m.nanos)
    } else {
        None
    }
}

} // verus!
