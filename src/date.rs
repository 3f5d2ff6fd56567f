//! Relative dates: yesterday, today and tomorrow from the UTC clock, and the
//! Monday of next week from the local calendar.

use vstd::prelude::*;
use vstd::arithmetic::div_mod::lemma_mod_multiples_vanish;
use crate::clock::{day_text, day_text_of, utc_now_millis, utc_text, utc_text_of};

verus! {

/// The day to render.
#[derive(Clone, Copy, Debug, PartialEq, Eq, Structural)]
pub enum WhatTypes {
    Yesterday,
    Today,
    Tomorrow,
    NextWeek,
}

/// Why a date could not be rendered.
#[derive(Clone, Copy, Debug, PartialEq, Eq, Structural)]
pub enum DateError {
    /// The day lies outside the representable range.
    OutOfRange,
    /// The format does not render for the day.
    Unrenderable,
    /// The system clock could not be read.
    ClockUnavailable,
}

/// A reading of the clock: the UTC instant in milliseconds since the Unix
/// epoch, and the local calendar day numbered from the start of the Common Era
/// (January 1 of year 1 is day 1).
#[derive(Clone, Copy, Debug, PartialEq, Eq, Structural)]
pub struct Now {
    pub utc_millis: i64,
    pub local_day: i32,
}

/// Milliseconds in a day.
pub const DAY_MILLIS: i64 = 86_400_000;

/// Days since the last Monday, 0 for a Monday: day 1 was a Monday.
pub open spec fn days_from_monday(day: int) -> int {
    (day - 1) % 7
}

/// The Monday of the week after the one holding `today`; a Monday maps to the
/// Monday seven days on.
pub open spec fn next_monday(today: int) -> int {
    today + 7 - days_from_monday(today)
}

/// A rendering, or `Unrenderable` where chrono gave none.
pub open spec fn rendered(text: Option<Seq<char>>) -> Result<Seq<char>, DateError> {
    match text {
        Some(s) => Ok(s),
        None => Err(DateError::Unrenderable),
    }
}

/// The UTC instant that `when` names at `now`, in milliseconds.
pub open spec fn utc_target(when: WhatTypes, now: Now) -> int {
    match when {
        WhatTypes::Yesterday => now.utc_millis - DAY_MILLIS,
        WhatTypes::Tomorrow => now.utc_millis + DAY_MILLIS,
        _ => now.utc_millis as int,
    }
}

/// What is printed for `when` at `now` under `fmt`.
pub open spec fn date_result(when: WhatTypes, now: Now, fmt: Seq<char>) -> Result<Seq<char>, DateError> {
    match when {
        WhatTypes::NextWeek => {
            let d = next_monday(now.local_day as int);
            if d > i32::MAX {
                Err(DateError::OutOfRange)
            } else {
                rendered(day_text_of(d as i32, fmt))
            }
        },
        _ => {
            let t = utc_target(when, now);
            if t < i64::MIN || t > i64::MAX {
                Err(DateError::OutOfRange)
            } else {
                rendered(utc_text_of(t as i64, fmt))
            }
        },
    }
}

pub open spec fn result_view(r: Result<String, DateError>) -> Result<Seq<char>, DateError> {
    match r {
        Ok(s) => Ok(s@),
        Err(e) => Err(e),
    }
}

/// Days since the last Monday for a day number, 0 for a Monday.
pub fn weekday_from_monday(day: i32) -> (r: u32)
    ensures
        r == days_from_monday(day as int),
        r < 7,
{
    let shifted: u64 = (day as i64 - 1 + 2_170_000_000i64) as u64;
    let r = (shifted % 7) as u32;
    proof {
        lemma_mod_multiples_vanish(310_000_000, day - 1, 7);
        assert(7 * 310_000_000 + (day - 1) == shifted);
    }
    r
}

/// The day number of the Monday of next week, or `None` when it does not fit.
pub fn next_week_day(today: i32) -> (r: Option<i32>)
    ensures
        next_monday(today as int) <= i32::MAX ==> r == Some(next_monday(today as int) as i32),
        next_monday(today as int) > i32::MAX ==> r is None,
{
    let w = weekday_from_monday(today);
    let ahead: i32 = 7 - w as i32;
    today.checked_add(ahead)
}

/// The next Monday is a Monday, one to seven days on: seven from a Monday,
/// five from a Wednesday.
pub proof fn lemma_next_monday(today: int)
    ensures
        days_from_monday(next_monday(today)) == 0,
        today < next_monday(today) <= today + 7,
        days_from_monday(today) == 0 ==> next_monday(today) == today + 7,
        days_from_monday(today) == 2 ==> next_monday(today) == today + 5,
{
    let w = days_from_monday(today);
    assert(next_monday(today) - 1 == 7 * ((today - 1) / 7 + 1));
    lemma_mod_multiples_vanish((today - 1) / 7 + 1, 0, 7);
}

/// Renders `when` at the clock reading `now` under the strftime-style format.
pub fn render_date(when: WhatTypes, now: Now, format: &str) -> (r: Result<String, DateError>)
    ensures
        result_view(r) == date_result(when, now, format@),
{
    let text = match when {
        WhatTypes::Yesterday => match now.utc_millis.checked_sub(DAY_MILLIS) {
            Some(t) => utc_text(t, format),
            None => return Err(DateError::OutOfRange),
        },
        WhatTypes::Today => utc_text(now.utc_millis, format),
        WhatTypes::Tomorrow => match now.utc_millis.checked_add(DAY_MILLIS) {
            Some(t) => utc_text(t, format),
            None => return Err(DateError::OutOfRange),
        },
        WhatTypes::NextWeek => match next_week_day(now.local_day) {
            Some(d) => day_text(d, format),
            None => return Err(DateError::OutOfRange),
        },
    };
    match text {
        Some(s) => Ok(s),
        None => Err(DateError::Unrenderable),
    }
}

/// Renders `when` under the format. The UTC options read the system clock;
/// next week counts from `local_day`, today's day number in the local time
/// zone, which the caller reads.
pub fn date(when: WhatTypes, local_day: i32, format: &str) -> (r: Result<String, DateError>)
    ensures
        (when is NextWeek) ==> result_view(r) == date_result(
            when,
            (Now { utc_millis: 0, local_day: local_day }),
            format@,
        ),
        !(when is NextWeek) ==> r == Err::<String, DateError>(DateError::ClockUnavailable)
            || exists|ms: i64| result_view(r) == date_result(when, (Now { utc_millis: ms, local_day: local_day }), format@),
{
    let utc_millis = match when {
        WhatTypes::NextWeek => 0,
        _ => match utc_now_millis() {
            Some(ms) => ms,
            None => return Err(DateError::ClockUnavailable),
        },
    };
    render_date(when, Now { utc_millis, local_day }, format)
}

/// Next week seen from a Monday renders the day seven days on; from a
/// Wednesday, the day five days on.
pub proof fn lemma_next_week_rendering(now: Now, fmt: Seq<char>)
    ensures
        days_from_monday(now.local_day as int) == 0 && now.local_day <= i32::MAX - 7
            ==> date_result(WhatTypes::NextWeek, now, fmt) == rendered(
            day_text_of((now.local_day + 7) as i32, fmt),
        ),
        days_from_monday(now.local_day as int) == 2 && now.local_day <= i32::MAX - 5
            ==> date_result(WhatTypes::NextWeek, now, fmt) == rendered(
            day_text_of((now.local_day + 5) as i32, fmt),
        ),
{
}

} // verus!
