//! Calendar timestamps, and the clock and parser of `chrono` behind them.
use vstd::prelude::*;

verus! {

/// A date and time without time zone: whole seconds since
/// 1970-01-01 00:00:00 and the nanoseconds within the second (beyond
/// 999,999,999 only within a leap second).
#[derive(Clone, Copy, PartialEq, Eq, Structural, Debug)]
pub struct NaiveTimestamp {
    pub secs: i64,
    pub nanos: u32,
}

/// The format in which request bodies give dates and times.
pub const DATETIME_FORMAT: &'static str = "%Y-%m-%d %H:%M:%S";

/// What `chrono::NaiveDateTime::parse_from_str` gives for a text and a format.
pub uninterp spec fn chrono_parse_naive(text: Seq<char>, format: Seq<char>) -> Option<NaiveTimestamp>;

/// What the `Display` of `chrono::NaiveDateTime` writes for a timestamp.
pub uninterp spec fn chrono_naive_text(ts: NaiveTimestamp) -> Seq<char>;

/// Calls `chrono::NaiveDateTime::parse_from_str(text, format)`. Claimed: the
/// result is the named parse of the two texts, `None` where chrono reports an
/// error; nothing is stated of which texts parse.
#[verifier::external_body]
pub(crate) fn parse_naive_datetime(text: &str, format: &str) -> (r: Option<NaiveTimestamp>)
    ensures
        r == chrono_parse_naive(text@, format@),
{
    match chrono::NaiveDateTime::parse_from_str(text, format) {
        Ok(dt) => Some(NaiveTimestamp { secs: dt.and_utc().timestamp(), nanos: dt.and_utc().timestamp_subsec_nanos() }),
        Err(_) => None,
    }
}

/// Calls `chrono::Local::now().naive_local()`. Claimed: only that the
/// nanoseconds stay below two seconds, as chrono documents for leap seconds;
/// the value itself is the machine's clock and is not stated.
#[verifier::external_body]
pub(crate) fn now_naive_local() -> (r: NaiveTimestamp)
    ensures
        r.nanos < 2_000_000_000,
{
    let dt = chrono::Local::now().naive_local();
    NaiveTimestamp { secs: dt.and_utc().timestamp(), nanos: dt.and_utc().timestamp_subsec_nanos() }
}

/// Calls the `Display` of `chrono::NaiveDateTime` (through `to_string`) on the
/// timestamp. Claimed: the text is the named rendering of the timestamp (for
/// a timestamp outside chrono's range, the empty text).
#[verifier::external_body]
pub(crate) fn naive_datetime_text(ts: NaiveTimestamp) -> (r: String)
    ensures
        r@ == chrono_naive_text(ts),
{
    match chrono::DateTime::from_timestamp(ts.secs, ts.nanos) {
        Some(dt) => dt.naive_utc().to_string(),
        None => String::new(),
    }
}

} // verus!
