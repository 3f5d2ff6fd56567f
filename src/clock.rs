//! Reading and rendering the time through chrono.
//!
//! An instant is held as milliseconds since the Unix epoch (UTC); a calendar
//! day as its number counted from January 1 of year 1 CE, which is day 1.

use vstd::prelude::*;
use std::fmt::Write;
use crate::naming::view_opt;

verus! {

/// What chrono renders for the UTC instant `millis` under the strftime-style
/// format `fmt`; `None` when the instant is out of chrono's range or the
/// format does not render.
pub uninterp spec fn utc_text_of(millis: i64, fmt: Seq<char>) -> Option<Seq<char>>;

/// What chrono renders for the day numbered `day` from the start of the Common
/// Era under the format `fmt`; `None` when the day is out of chrono's range or
/// the format does not render.
pub uninterp spec fn day_text_of(day: i32, fmt: Seq<char>) -> Option<Seq<char>>;

/// Relies on `std::time::SystemTime::now` and `SystemTime::duration_since`
/// with `UNIX_EPOCH`: the current instant in milliseconds, or `None` when the
/// clock reads before the epoch or beyond `i64`; nothing is known of its value.
#[verifier::external_body]
pub(crate) fn utc_now_millis() -> (r: Option<i64>) {
    let since = std::time::SystemTime::now().duration_since(std::time::UNIX_EPOCH).ok()?;
    i64::try_from(since.as_millis()).ok()
}

/// Relies on `chrono::DateTime::from_timestamp_millis` and
/// `DateTime::format`: renders the instant, or `None` when it is out of range
/// or the format reports an error.
#[verifier::external_body]
pub(crate) fn utc_text(millis: i64, fmt: &str) -> (r: Option<String>)
    ensures
        view_opt(r) == utc_text_of(millis, fmt@),
{
    let t = chrono::DateTime::from_timestamp_millis(millis)?;
    let mut out = String::new();
    write!(out, "{}", t.format(fmt)).ok()?;
    Some(out)
}

/// Relies on `chrono::NaiveDate::from_num_days_from_ce_opt` and
/// `NaiveDate::format`: renders the day, or `None` when it is out of range or
/// the format reports an error.
#[verifier::external_body]
pub(crate) fn day_text(day: i32, fmt: &str) -> (r: Option<String>)
    ensures
        view_opt(r) == day_text_of(day, fmt@),
{
    let d = chrono::NaiveDate::from_num_days_from_ce_opt(day)?;
    let mut out = String::new();
    write!(out, "{}", d.format(fmt)).ok()?;
    Some(out)
}

/// The format of the timestamps in file names: `YYYYMMDD_HHMMSS_mmm`.
pub open spec fn timestamp_format() -> Seq<char> {
    seq!['%', 'Y', '%', 'm', '%', 'd', '_', '%', 'H', '%', 'M', '%', 'S', '_', '%', '3', 'f']
}

/// `s` is the rendering of some UTC instant in the timestamp format.
pub open spec fn is_timestamp(s: Seq<char>) -> bool {
    exists|ms: i64| utc_text_of(ms, timestamp_format()) == Some(s)
}

/// The current UTC time rendered as `YYYYMMDD_HHMMSS_mmm`; `None` only when the
/// clock cannot be read or its reading is outside chrono's range.
pub fn timestamp() -> (r: Option<String>)
    ensures
        r matches Some(s) ==> is_timestamp(s@),
{
    let ms = match utc_now_millis() {
        Some(ms) => ms,
        None => return None,
    };
    let fmt = "%Y%m%d_%H%M%S_%3f";
    proof {
        reveal_strlit("%Y%m%d_%H%M%S_%3f");
        assert(fmt@ =~= timestamp_format());
    }
    utc_text(ms, fmt)
}

} // verus!
