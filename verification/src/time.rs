//! Calendar arithmetic and timezone-correct resolution of a message's
//! declared date into one comparable instant.
//!
//! Instants are plain `i64` counts of seconds on the runtime's local wall
//! clock, so that values from different runs compare directly.

use vstd::prelude::*;

verus! {

/// Calendar fields of a message's declared local date and time.
#[derive(Clone, Copy, Debug, PartialEq, Eq, Structural)]
pub struct CivilTime {
    pub year: u32,
    pub month: u32,
    pub day: u32,
    pub hour: u32,
    pub minute: u32,
    pub second: u32,
}

/// Fields form a date the mail format can carry and a time of day.
pub open spec fn civil_time_valid(t: CivilTime) -> bool {
    &&& 1 <= t.year <= 9999
    &&& 1 <= t.month <= 12
    &&& 1 <= t.day <= 31
    &&& t.hour < 24
    &&& t.minute < 60
    &&& t.second < 60
}

/// Days since 1970-01-01 of a proleptic Gregorian calendar date.
pub open spec fn spec_days_from_civil(year: int, month: int, day: int) -> int {
    let y = if month <= 2 { year - 1 } else { year };
    let era = y / 400;
    let yoe = y - era * 400;
    let mp = if month > 2 { month - 3 } else { month + 9 };
    let doy = (153 * mp + 2) / 5 + day - 1;
    let doe = yoe * 365 + yoe / 4 - yoe / 100 + doy;
    era * 146097 + doe - 719468
}

/// Seconds since 1970-01-01T00:00:00 of the civil date and time, with the
/// fields read as a naive (offset-free) clock.
pub open spec fn spec_civil_seconds(t: CivilTime) -> int {
    spec_days_from_civil(t.year as int, t.month as int, t.day as int) * 86400
        + t.hour * 3600 + t.minute * 60 + t.second
}

/// The instant a message's declared fields denote, on the runtime's local
/// clock. The declared offset's sign convention is inverted relative to
/// ordinary UTC-offset arithmetic: a zone behind GMT is added, a zone ahead
/// of GMT is subtracted. The runtime's own offset is then added to land on
/// the local clock used for freshness comparisons.
pub open spec fn spec_resolve_message_instant(
    t: CivilTime,
    tz_before_gmt: bool,
    tz_hour: u32,
    tz_minute: u32,
    local_offset_seconds: i32,
) -> int {
    let declared = tz_hour * 3600 + tz_minute * 60;
    let corrected = if tz_before_gmt {
        spec_civil_seconds(t) + declared
    } else {
        spec_civil_seconds(t) - declared
    };
    corrected + local_offset_seconds
}

/// Days since 1970-01-01 of the given calendar date.
pub fn days_from_civil(year: u32, month: u32, day: u32) -> (r: i64)
    requires
        1 <= year <= 9999,
        1 <= month <= 12,
        1 <= day <= 31,
    ensures
        r == spec_days_from_civil(year as int, month as int, day as int),
        -719469 < r < 3000000,
{
    let y: u64 = if month <= 2 { year as u64 - 1 } else { year as u64 };
    let era: u64 = y / 400;
    let yoe: u64 = y - era * 400;
    let mp: u64 = if month > 2 { month as u64 - 3 } else { month as u64 + 9 };
    let doy: u64 = (153 * mp + 2) / 5 + day as u64 - 1;
    let doe: u64 = yoe * 365 + yoe / 4 - yoe / 100 + doy;
    (era * 146097 + doe) as i64 - 719468
}

/// Seconds since 1970-01-01T00:00:00 of the naive civil date and time.
pub fn civil_seconds(t: CivilTime) -> (r: i64)
    requires
        civil_time_valid(t),
    ensures
        r == spec_civil_seconds(t),
{
    let days = days_from_civil(t.year, t.month, t.day);
    days * 86400 + t.hour as i64 * 3600 + t.minute as i64 * 60 + t.second as i64
}

/// Resolve a message's declared date, time and UTC offset to one comparable
/// instant, given the runtime's own offset from UTC in seconds.
pub fn resolve_message_instant(
    t: CivilTime,
    tz_before_gmt: bool,
    tz_hour: u32,
    tz_minute: u32,
    local_offset_seconds: i32,
) -> (r: i64)
    requires
        civil_time_valid(t),
        tz_hour < 24,
        tz_minute < 60,
        -86400 < local_offset_seconds < 86400,
    ensures
        r == spec_resolve_message_instant(t, tz_before_gmt, tz_hour, tz_minute,
            local_offset_seconds),
{
    let naive = civil_seconds(t);
    let declared: i64 = tz_hour as i64 * 3600 + tz_minute as i64 * 60;
    let corrected: i64 = if tz_before_gmt { naive + declared } else { naive - declared };
    corrected + local_offset_seconds as i64
}

/// Relies on chrono::Local::now and chrono::FixedOffset::local_minus_utc:
/// the runtime's offset from UTC in seconds, which chrono keeps strictly
/// within one day in either direction.
#[verifier::external_body]
fn chrono_local_offset_seconds() -> (r: i32)
    ensures
        -86400 < r < 86400,
{
    chrono::Offset::fix(chrono::Local::now().offset()).local_minus_utc()
}

/// Relies on chrono::Local::now and chrono::NaiveDateTime::timestamp: the
/// current time, read as seconds on the local wall clock. Nothing is
/// promised of the clock's value.
#[verifier::external_body]
pub(crate) fn chrono_local_now_seconds() -> i64 {
    chrono::Local::now().naive_local().and_utc().timestamp()
}

/// Resolve a message's declared date, time and UTC offset to one comparable
/// instant, querying the runtime's own UTC offset from the system.
pub fn resolve_message_instant_here(
    t: CivilTime,
    tz_before_gmt: bool,
    tz_hour: u32,
    tz_minute: u32,
) -> (r: i64)
    requires
        civil_time_valid(t),
        tz_hour < 24,
        tz_minute < 60,
    ensures
        exists|off: i32|
            -86400 < off < 86400 && r == spec_resolve_message_instant(t, tz_before_gmt,
                tz_hour, tz_minute, off),
{
    let off = chrono_local_offset_seconds();
    resolve_message_instant(t, tz_before_gmt, tz_hour, tz_minute, off)
}

} // verus!
