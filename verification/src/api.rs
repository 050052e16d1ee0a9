//! The time windows of the web API's queries and the selects built for
//! them, with time stamps written by `chrono`.
use vstd::prelude::*;

use crate::sql::{
    ina_bucket_select, ina_bucket_text, ina_range_select, ina_range_text, system_bucket_select,
    system_bucket_text, system_range_select, system_range_text,
};

verus! {

broadcast use vstd::string::group_string_axioms;

/// The query parameters of the API: the ends of the time window, in
/// milliseconds since the Unix epoch.
pub struct CheckParams {
    pub from: Option<i64>,
    pub to: Option<i64>,
}

/// A point in time: whole seconds since the Unix epoch and nanoseconds
/// into that second.
#[derive(PartialEq, Eq, Structural, Clone, Copy, Debug)]
pub struct Stamp {
    pub secs: i64,
    pub nanos: u32,
}

/// The time window of a query.
#[derive(PartialEq, Eq, Structural, Clone, Copy, Debug)]
pub struct QueryWindow {
    pub from: Stamp,
    pub to: Stamp,
}

/// The end of a query window that could not be written as a date.
#[derive(PartialEq, Eq, Structural, Clone, Copy, Debug)]
pub enum WindowError {
    BadFrom,
    BadTo,
}

/// Milliseconds in seven days.
pub open spec fn week_millis() -> int {
    604_800_000
}

/// Seconds in one day.
pub open spec fn day_secs() -> int {
    86_400
}

/// A week is seven days of twenty-four hours, and the window lengths are
/// written in those units: seconds per day and milliseconds per week.
pub proof fn lemma_window_lengths()
    ensures
        day_secs() == 24 * 60 * 60,
        week_millis() == 7 * day_secs() * 1000,
{
}

/// The point in time `millis` milliseconds after the epoch (floor division,
/// so that earlier times have a non-negative sub-second part).
pub open spec fn stamp_of_millis(millis: int) -> Stamp {
    Stamp { secs: (millis / 1000) as i64, nanos: ((millis % 1000) * 1_000_000) as u32 }
}

/// Converts milliseconds since the epoch into seconds and nanoseconds, as
/// `DateTime::from_timestamp_millis` splits them.
pub fn stamp_from_millis(millis: i64) -> (s: Stamp)
    ensures
        s == stamp_of_millis(millis as int),
        s.secs == millis as int / 1000,
        s.nanos == (millis as int % 1000) * 1_000_000,
{
    let q = millis / 1000;
    let r = millis % 1000;
    if r < 0 {
        Stamp { secs: q - 1, nanos: ((r + 1000) as u32) * 1_000_000 }
    } else {
        Stamp { secs: q, nanos: (r as u32) * 1_000_000 }
    }
}

/// The window of a request to the current API: from `from`, or else now;
/// to `to`, or else seven days before now (times in milliseconds).
pub fn requested_window(params: &CheckParams, now_millis: i64) -> (w: QueryWindow)
    requires
        params.to is None ==> now_millis >= i64::MIN + week_millis(),
    ensures
        w.from == stamp_of_millis(
            match params.from {
                Some(f) => f as int,
                None => now_millis as int,
            },
        ),
        w.to == stamp_of_millis(
            match params.to {
                Some(t) => t as int,
                None => now_millis - week_millis(),
            },
        ),
{
    let from_millis = match params.from {
        Some(f) => f,
        None => now_millis,
    };
    let to_millis = match params.to {
        Some(t) => t,
        None => now_millis - 604_800_000,
    };
    QueryWindow { from: stamp_from_millis(from_millis), to: stamp_from_millis(to_millis) }
}

/// The window of a request to the first API: the last day up to `now`.
pub fn last_day_window(now: Stamp) -> (w: QueryWindow)
    requires
        now.secs >= i64::MIN + day_secs(),
    ensures
        w.from == (Stamp { secs: (now.secs - day_secs()) as i64, nanos: now.nanos }),
        w.to == now,
{
    QueryWindow { from: Stamp { secs: now.secs - 86_400, nanos: now.nanos }, to: now }
}

/// How `chrono` writes the UTC date and time `secs` seconds and `nanos`
/// nanoseconds after the epoch (as `DateTime<Utc>`'s `Display` does), or
/// `None` where `DateTime::from_timestamp` finds it out of range.
pub uninterp spec fn utc_text(secs: int, nanos: int) -> Option<Seq<char>>;

/// Writes a point in time as a UTC date.
///
/// Trusted: calls `chrono::DateTime::<Utc>::from_timestamp` and, when it
/// gives a date, that date's `Display`. The contract claims that the
/// result depends on the two numbers alone.
#[verifier::external_body]
fn utc_stamp(secs: i64, nanos: u32) -> (text: Option<String>)
    ensures
        match text {
            Some(t) => utc_text(secs as int, nanos as int) == Some(t@),
            None => utc_text(secs as int, nanos as int) is None,
        },
{
    match chrono::DateTime::<chrono::Utc>::from_timestamp(secs, nanos) {
        Some(date) => Some(date.to_string()),
        None => None,
    }
}

/// The text of a point in time, as the selects compare it with the stored
/// time stamps.
pub fn stamp_text(stamp: Stamp) -> (text: Option<String>)
    ensures
        match text {
            Some(t) => utc_text(stamp.secs as int, stamp.nanos as int) == Some(t@),
            None => utc_text(stamp.secs as int, stamp.nanos as int) is None,
        },
{
    utc_stamp(stamp.secs, stamp.nanos)
}

/// The texts of both ends of a window, or which end could not be written
/// (the start is tried first).
pub open spec fn window_texts(w: QueryWindow) -> Result<(Seq<char>, Seq<char>), WindowError> {
    match utc_text(w.from.secs as int, w.from.nanos as int) {
        None => Err(WindowError::BadFrom),
        Some(f) => match utc_text(w.to.secs as int, w.to.nanos as int) {
            None => Err(WindowError::BadTo),
            Some(t) => Ok((f, t)),
        },
    }
}

/// Writes both ends of a window, or says which end is out of range.
pub fn window_stamps(w: &QueryWindow) -> (r: Result<(String, String), WindowError>)
    ensures
        match r {
            Ok((f, t)) => window_texts(*w) == Ok::<(Seq<char>, Seq<char>), WindowError>(
                (f@, t@),
            ),
            Err(e) => window_texts(*w) == Err::<(Seq<char>, Seq<char>), WindowError>(e),
        },
{
    let from = match stamp_text(w.from) {
        Some(f) => f,
        None => return Err(WindowError::BadFrom),
    };
    let to = match stamp_text(w.to) {
        Some(t) => t,
        None => return Err(WindowError::BadTo),
    };
    Ok((from, to))
}

/// The select the current API sends for the measurements of `table` in a
/// window: ten-minute averages between the written ends of the window.
pub fn ina_window_select(table: &str, w: &QueryWindow) -> (r: Result<String, WindowError>)
    ensures
        match r {
            Ok(sql) => window_texts(*w) matches Ok((f, t)) && sql@ == ina_bucket_text(
                table@,
                f,
                t,
            ),
            Err(e) => window_texts(*w) == Err::<(Seq<char>, Seq<char>), WindowError>(e),
        },
{
    match window_stamps(w) {
        Ok((from, to)) => Ok(ina_bucket_select(table, from.as_str(), to.as_str())),
        Err(e) => Err(e),
    }
}

/// The select the current API sends for the system measurements in a
/// window: ten-minute averages between the written ends of the window.
pub fn system_window_select(w: &QueryWindow) -> (r: Result<String, WindowError>)
    ensures
        match r {
            Ok(sql) => window_texts(*w) matches Ok((f, t)) && sql@ == system_bucket_text(f, t),
            Err(e) => window_texts(*w) == Err::<(Seq<char>, Seq<char>), WindowError>(e),
        },
{
    match window_stamps(w) {
        Ok((from, to)) => Ok(system_bucket_select(from.as_str(), to.as_str())),
        Err(e) => Err(e),
    }
}

/// The select the first API sends for every measurement of `table` in a
/// window.
pub fn ina_day_select(table: &str, w: &QueryWindow) -> (r: Result<String, WindowError>)
    ensures
        match r {
            Ok(sql) => window_texts(*w) matches Ok((f, t)) && sql@ == ina_range_text(
                table@,
                f,
                t,
            ),
            Err(e) => window_texts(*w) == Err::<(Seq<char>, Seq<char>), WindowError>(e),
        },
{
    match window_stamps(w) {
        Ok((from, to)) => Ok(ina_range_select(table, from.as_str(), to.as_str())),
        Err(e) => Err(e),
    }
}

/// The select the first API sends for every system measurement in a
/// window.
pub fn system_day_select(w: &QueryWindow) -> (r: Result<String, WindowError>)
    ensures
        match r {
            Ok(sql) => window_texts(*w) matches Ok((f, t)) && sql@ == system_range_text(f, t),
            Err(e) => window_texts(*w) == Err::<(Seq<char>, Seq<char>), WindowError>(e),
        },
{
    match window_stamps(w) {
        Ok((from, to)) => Ok(system_range_select(from.as_str(), to.as_str())),
        Err(e) => Err(e),
    }
}

} // verus!
