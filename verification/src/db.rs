//! The records that the proxy keeps of its decisions, and the counters it
//! keeps per day.
use vstd::prelude::*;

verus! {

/// A point in time: whole seconds since 1970-01-01 00:00:00 UTC and the
/// nanoseconds past them.
#[derive(Debug, Clone, Copy, PartialEq, Eq, Structural)]
pub struct Timestamp {
    pub seconds: i64,
    pub nanoseconds: u32,
}

/// The text that `DateTime::to_rfc3339` writes for the UTC instant, if
/// `DateTime::from_timestamp` can represent it.
pub uninterp spec fn rfc3339_text(seconds: i64, nanoseconds: u32) -> Option<Seq<char>>;

/// The instant that `DateTime::parse_from_rfc3339` reads from `text`, as
/// seconds since 1970 and nanoseconds, if the text is RFC 3339.
pub uninterp spec fn rfc3339_instant(text: Seq<char>) -> Option<(i64, u32)>;

/// The UTC date of the instant as `format("%Y-%m-%d")` writes it, if
/// `DateTime::from_timestamp` can represent the instant.
pub uninterp spec fn utc_day_text(seconds: i64, nanoseconds: u32) -> Option<Seq<char>>;

/// An instant in years 0000 to 9999, with the nanoseconds below one
/// second: chrono writes it as RFC 3339 text with a plain four-digit year.
pub open spec fn in_four_digit_years(t: Timestamp) -> bool {
    -62_167_219_200 <= t.seconds < 253_402_300_800 && t.nanoseconds < 1_000_000_000
}

/// `std::time::SystemTime`, a reading of the system clock.
#[verifier::external_type_specification]
#[verifier::external_body]
pub struct ExSystemTime(std::time::SystemTime);

/// Reads the system clock.
///
/// Wraps `std::time::SystemTime::now`; nothing is stated of the time read.
#[verifier::external_body]
fn system_clock() -> std::time::SystemTime {
    std::time::SystemTime::now()
}

/// The time elapsed from 1970-01-01 00:00:00 UTC to `t`.
///
/// Wraps `SystemTime::duration_since` with `UNIX_EPOCH`; its error, for a
/// time before 1970, is `None`. Nothing is stated of the duration.
#[verifier::external_body]
fn since_unix_epoch(t: &std::time::SystemTime) -> Option<std::time::Duration> {
    match t.duration_since(std::time::UNIX_EPOCH) {
        Ok(d) => Some(d),
        Err(_) => None,
    }
}

/// The whole seconds of `d`.
///
/// Wraps `Duration::as_secs`; nothing is stated of the number.
#[verifier::external_body]
fn whole_seconds(d: &std::time::Duration) -> u64 {
    d.as_secs()
}

/// The fractional part of `d`, in nanoseconds.
///
/// Wraps `Duration::subsec_nanos`, which its documentation says is always
/// less than one billion.
#[verifier::external_body]
fn subsecond_nanos(d: &std::time::Duration) -> (n: u32)
    ensures
        n < 1_000_000_000,
{
    d.subsec_nanos()
}

/// The current time, read from the system clock; `None` when the clock is
/// set before 1970 or after year 9999.
pub(crate) fn current_time() -> (r: Option<Timestamp>)
    ensures
        r matches Some(t) ==> t.seconds >= 0 && in_four_digit_years(t),
{
    let now = system_clock();
    match since_unix_epoch(&now) {
        Some(d) => {
            let seconds = whole_seconds(&d);
            let nanoseconds = subsecond_nanos(&d);
            if seconds < 253_402_300_800 {
                Some(Timestamp { seconds: seconds as i64, nanoseconds })
            } else {
                None
            }
        },
        None => None,
    }
}

/// Wraps `DateTime::from_timestamp` followed by `to_rfc3339`. For an instant
/// in years 0000 to 9999 `from_timestamp` succeeds, and `to_rfc3339` writes
/// the year with four digits and the nanoseconds with 0, 3, 6 or 9 digits,
/// as many as they need, which `DateTime::parse_from_rfc3339` reads back as
/// the same instant.
#[verifier::external_body]
fn format_rfc3339(t: Timestamp) -> (s: Option<String>)
    ensures
        s.deep_view() == rfc3339_text(t.seconds, t.nanoseconds),
        in_four_digit_years(t) ==> s is Some,
        in_four_digit_years(t) ==> rfc3339_instant(s.unwrap()@) == Some((t.seconds, t.nanoseconds)),
{
    match chrono::DateTime::from_timestamp(t.seconds, t.nanoseconds) {
        Some(d) => Some(d.to_rfc3339()),
        None => None,
    }
}

/// Wraps `DateTime::parse_from_rfc3339`, taking the instant apart with
/// `timestamp` and `timestamp_subsec_nanos`.
#[verifier::external_body]
fn parse_rfc3339(text: &str) -> (t: Option<Timestamp>)
    ensures
        t == (match rfc3339_instant(text@) {
            Some((s, n)) => Some(Timestamp { seconds: s, nanoseconds: n }),
            None => None,
        }),
{
    match chrono::DateTime::parse_from_rfc3339(text) {
        Ok(d) => Some(Timestamp { seconds: d.timestamp(), nanoseconds: d.timestamp_subsec_nanos() }),
        Err(_) => None,
    }
}

/// Wraps `DateTime::from_timestamp` followed by `format("%Y-%m-%d")`; for
/// an instant in years 0000 to 9999 `from_timestamp` succeeds.
#[verifier::external_body]
fn format_day(t: Timestamp) -> (s: Option<String>)
    ensures
        s.deep_view() == utc_day_text(t.seconds, t.nanoseconds),
        in_four_digit_years(t) ==> s is Some,
{
    match chrono::DateTime::from_timestamp(t.seconds, t.nanoseconds) {
        Some(d) => Some(d.format("%Y-%m-%d").to_string()),
        None => None,
    }
}

/// The RFC 3339 text under which the instant `t` is stored; for instants in
/// years 0000 to 9999 it reads back as `t`.
pub fn instant_text(t: Timestamp) -> (s: Option<String>)
    ensures
        s.deep_view() == rfc3339_text(t.seconds, t.nanoseconds),
        in_four_digit_years(t) ==> s is Some,
        in_four_digit_years(t) ==> rfc3339_instant(s.unwrap()@) == Some((t.seconds, t.nanoseconds)),
{
    format_rfc3339(t)
}

/// `c` is a digit or a lowercase letter from `a` to `f`.
pub open spec fn is_lower_hex(c: char) -> bool {
    ('0' <= c <= '9') || ('a' <= c <= 'f')
}

/// `s` is a random (version 4) UUID in its hyphenated lowercase form,
/// `xxxxxxxx-xxxx-4xxx-yxxx-xxxxxxxxxxxx` with `y` one of `8`, `9`, `a`, `b`.
pub open spec fn is_uuid_v4_text(s: Seq<char>) -> bool {
    &&& s.len() == 36
    &&& forall|i: int|
        0 <= i < 36 ==> if i == 8 || i == 13 || i == 18 || i == 23 {
            s[i] == '-'
        } else {
            is_lower_hex(#[trigger] s[i])
        }
    &&& s[14] == '4'
    &&& (s[19] == '8' || s[19] == '9' || s[19] == 'a' || s[19] == 'b')
}

/// A fresh identifier for a record.
///
/// Wraps `uuid::Uuid::new_v4`, formatted by `to_string`. The identifier is
/// random; `new_v4` sets the version nibble to 4 and the variant bits to
/// `10`, and `to_string` writes the hyphenated lowercase form.
#[verifier::external_body]
pub(crate) fn fresh_record_id() -> (id: String)
    ensures
        is_uuid_v4_text(id@),
{
    uuid::Uuid::new_v4().to_string()
}

/// A decision that the filter took on a page.
#[derive(Debug, Clone)]
pub struct ContentRecord {
    pub id: String,
    pub url: String,
    pub content_type: String,
    pub classification: Option<String>,
    /// In hundredths.
    pub confidence: Option<u32>,
    pub action_taken: String,
    pub timestamp: Timestamp,
}

/// Counts of requests, by what was done with them.
#[derive(Debug, Clone, Copy, PartialEq, Eq, Structural)]
pub struct FilterStats {
    pub total_requests: i64,
    pub blocked_requests: i64,
    pub allowed_requests: i64,
    pub throttled_requests: i64,
}

/// What one recorded request adds to the day's counters: one to the total
/// and these amounts to the three others.
#[derive(Debug, Clone, Copy, PartialEq, Eq, Structural)]
pub struct StatsUpdate {
    pub blocked: i64,
    pub allowed: i64,
    pub throttled: i64,
}

/// What a request recorded under `action` adds to the counters; `None` for
/// an action that is not counted.
pub open spec fn stats_update_for(action: Seq<char>) -> Option<StatsUpdate> {
    if action == "blocked"@ {
        Some(StatsUpdate { blocked: 1, allowed: 0, throttled: 0 })
    } else if action == "allowed"@ {
        Some(StatsUpdate { blocked: 0, allowed: 1, throttled: 0 })
    } else if action == "throttled"@ {
        Some(StatsUpdate { blocked: 0, allowed: 0, throttled: 1 })
    } else {
        None
    }
}

/// What a request recorded under `action` adds to the day's counters; the
/// total always grows by one, and exactly one of the others with it.
pub fn stats_update(action: &str) -> (u: Option<StatsUpdate>)
    ensures
        u == stats_update_for(action@),
        u matches Some(d) ==> d.blocked + d.allowed + d.throttled == 1,
{
    let a = action.to_owned();
    if crate::text::eq_str(&a, "blocked") {
        Some(StatsUpdate { blocked: 1, allowed: 0, throttled: 0 })
    } else if crate::text::eq_str(&a, "allowed") {
        Some(StatsUpdate { blocked: 0, allowed: 1, throttled: 0 })
    } else if crate::text::eq_str(&a, "throttled") {
        Some(StatsUpdate { blocked: 0, allowed: 0, throttled: 1 })
    } else {
        None
    }
}

/// The instant that the stored text `text` stands for.
pub open spec fn stored_instant(text: Seq<char>) -> Option<Timestamp> {
    match rfc3339_instant(text) {
        Some((s, n)) => Some(Timestamp { seconds: s, nanoseconds: n }),
        None => None,
    }
}

/// A record read back from storage, whose time is stored as RFC 3339 text;
/// `None` when the text is not RFC 3339.
pub fn stored_record(
    id: String,
    url: String,
    content_type: String,
    classification: Option<String>,
    confidence: Option<u32>,
    action_taken: String,
    timestamp: &str,
) -> (r: Option<ContentRecord>)
    ensures
        r is Some <==> stored_instant(timestamp@) is Some,
        r matches Some(rec) ==> {
            &&& rec.id == id
            &&& rec.url == url
            &&& rec.content_type == content_type
            &&& rec.classification == classification
            &&& rec.confidence == confidence
            &&& rec.action_taken == action_taken
            &&& Some(rec.timestamp) == stored_instant(timestamp@)
        },
{
    match parse_rfc3339(timestamp) {
        Some(t) => Some(
            ContentRecord { id, url, content_type, classification, confidence, action_taken, timestamp: t },
        ),
        None => None,
    }
}

/// The day's key and the counter update for a request recorded at `now`
/// under `action`; `None` for an action that is not counted, or for an
/// instant that chrono cannot represent.
pub fn stats_entry_at(action: &str, now: Timestamp) -> (r: Option<(String, StatsUpdate)>)
    ensures
        r is Some <==> stats_update_for(action@) is Some && utc_day_text(now.seconds, now.nanoseconds) is Some,
        r matches Some((day, u)) ==> Some(u) == stats_update_for(action@) && Some(day@) == utc_day_text(
            now.seconds,
            now.nanoseconds,
        ),
{
    let update = match stats_update(action) {
        Some(u) => u,
        None => return None,
    };
    match format_day(now) {
        Some(day) => Some((day, update)),
        None => None,
    }
}

/// The day's key and the counter update for a request recorded now under
/// `action`; `None`, without reading the clock, for an action that is not
/// counted, and `None` when the clock reads before 1970 or after year 9999.
pub fn stats_entry(action: &str) -> (r: Option<(String, StatsUpdate)>)
    ensures
        stats_update_for(action@) is None ==> r is None,
        r matches Some((day, u)) ==> Some(u) == stats_update_for(action@) && exists|t: Timestamp|
            t.seconds >= 0 && in_four_digit_years(t) && utc_day_text(t.seconds, t.nanoseconds) == Some(day@),
{
    if stats_update(action).is_none() {
        return None;
    }
    match current_time() {
        Some(now) => stats_entry_at(action, now),
        None => None,
    }
}

} // verus!
