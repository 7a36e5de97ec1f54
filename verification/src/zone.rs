//! What the calendar and the time zone database say: the weekday of a date,
//! the instant of a local time in a zone, and the date and time of an
//! instant. These come from `chrono` and `chrono_tz`; nothing here is proved
//! of them, and each contract says what is taken on trust.

use chrono::{DateTime, Datelike, LocalResult, NaiveDate, TimeZone, Timelike, Utc};
use chrono_tz::Tz;
use vstd::prelude::*;

use crate::civil::{is_calendar_date, is_clock_time, weekday_index, CivilMoment};
use crate::error::DateError;
use crate::weekday::Weekday;

verus! {

/// What a zone makes of a local date and time.
#[derive(Clone, Copy, Debug, PartialEq, Eq, Structural)]
pub enum LocalTime {
    /// The zone's clocks skipped this local time.
    Missing,
    /// The zone's clocks showed this local time once, at this instant, in
    /// seconds since 1970-01-01 00:00:00 UTC.
    Unique(i64),
    /// The zone's clocks showed this local time twice, at these instants.
    Ambiguous(i64, i64),
}

impl LocalTime {
    /// The one instant of the local time, or the error that says why there
    /// is none.
    pub open spec fn single_spec(self) -> Result<i64, DateError> {
        match self {
            LocalTime::Missing => Err(DateError::InvalidTime),
            LocalTime::Unique(instant) => Ok(instant),
            LocalTime::Ambiguous(_, _) => Err(DateError::AmbiguousLocalTime),
        }
    }

    /// The one instant of the local time. A skipped local time is an
    /// `InvalidTime` error, never the time after the gap; a local time that
    /// came twice is an `AmbiguousLocalTime` error, never one of the two.
    pub fn single(self) -> (instant: Result<i64, DateError>)
        ensures
            instant == self.single_spec(),
    {
        match self {
            LocalTime::Missing => Err(DateError::InvalidTime),
            LocalTime::Unique(instant) => Ok(instant),
            LocalTime::Ambiguous(_, _) => Err(DateError::AmbiguousLocalTime),
        }
    }
}

/// Whether the time zone database has a zone of this name: what
/// `Tz::from_str` of `chrono_tz` answers.
pub uninterp spec fn zone_known(zone: Seq<char>) -> bool;

/// The weekday of a day of the calendar.
pub open spec fn weekday_on(year: int, month: int, day: int) -> Weekday {
    Weekday::at(weekday_index(year, month, day))
}

/// What the zone makes of a local date and time: what
/// `TimeZone::from_local_datetime` of `chrono` answers for the zone's `Tz`.
pub uninterp spec fn local_time_in_zone(
    zone: Seq<char>,
    year: int,
    month: int,
    day: int,
    hour: int,
    minute: int,
    second: int,
) -> LocalTime;

/// The date and time that the zone's clocks show at an instant, if the zone
/// is known and the calendar reaches that far: what `TimeZone::timestamp_opt`
/// of `chrono` answers for the zone's `Tz`.
pub uninterp spec fn civil_time_in_zone(zone: Seq<char>, unix_seconds: int) -> Option<CivilMoment>;

/// The date and time of an instant in UTC, if the calendar reaches that far:
/// what `DateTime::from_timestamp` of `chrono` answers.
pub uninterp spec fn civil_time_utc(unix_seconds: int) -> Option<CivilMoment>;

/// Asks `chrono_tz` whether it has a zone of this name, by `Tz::from_str`.
/// Taken on trust: the answer depends on the name alone.
#[verifier::external_body]
pub(crate) fn zone_exists(zone: &str) -> (known: bool)
    ensures
        known == zone_known(zone@),
{
    zone.parse::<Tz>().is_ok()
}

/// The weekday of a date, by `NaiveDate::from_ymd_opt` and
/// `Datelike::weekday` of `chrono`. Taken on trust: `chrono` has a date for
/// exactly the days of the calendar, and its weekday is the one that the
/// count of days gives in which the first of January of year 1 is day 1 and
/// a Monday.
#[verifier::external_body]
pub(crate) fn weekday_of(year: i32, month: u32, day: u32) -> (weekday: Option<Weekday>)
    ensures
        weekday is Some <==> is_calendar_date(year as int, month as int, day as int),
        weekday matches Some(w) ==> w == weekday_on(year as int, month as int, day as int),
{
    let date = NaiveDate::from_ymd_opt(year, month, day)?;
    Some(match date.weekday() {
        chrono::Weekday::Mon => Weekday::Mon,
        chrono::Weekday::Tue => Weekday::Tue,
        chrono::Weekday::Wed => Weekday::Wed,
        chrono::Weekday::Thu => Weekday::Thu,
        chrono::Weekday::Fri => Weekday::Fri,
        chrono::Weekday::Sat => Weekday::Sat,
        chrono::Weekday::Sun => Weekday::Sun,
    })
}

/// The instant of a local date and time in a zone, by
/// `TimeZone::from_local_datetime` of `chrono` on a `Tz` of `chrono_tz`.
/// Taken on trust: for a zone that is known, a day of the calendar and a
/// time of the clock with its second the call is answered, and the answer
/// depends on these alone; an instant that it gives is one that the calendar
/// reaches, since `DateTime::timestamp` and `DateTime::from_timestamp` are
/// inverse to each other.
#[verifier::external_body]
pub(crate) fn resolve_local_time(
    zone: &str,
    year: i32,
    month: u32,
    day: u32,
    hour: u32,
    minute: u32,
    second: u32,
) -> (found: LocalTime)
    requires
        zone_known(zone@),
        is_calendar_date(year as int, month as int, day as int),
        is_clock_time(hour as int, minute as int),
        second < 60,
    ensures
        found == local_time_in_zone(
            zone@,
            year as int,
            month as int,
            day as int,
            hour as int,
            minute as int,
            second as int,
        ),
        found matches LocalTime::Unique(instant) ==> civil_time_utc(instant as int) is Some,
{
    let tz: Tz = zone.parse().unwrap();
    let date = NaiveDate::from_ymd_opt(year, month, day).unwrap();
    let local = date.and_hms_opt(hour, minute, second).unwrap();
    match tz.from_local_datetime(&local) {
        LocalResult::None => LocalTime::Missing,
        LocalResult::Single(t) => LocalTime::Unique(t.timestamp()),
        LocalResult::Ambiguous(a, b) => LocalTime::Ambiguous(a.timestamp(), b.timestamp()),
    }
}

/// The date and time that a zone's clocks show at an instant, by
/// `TimeZone::timestamp_opt` of `chrono` on a `Tz` of `chrono_tz`. There is
/// none for a zone that is not known or an instant that the calendar does
/// not reach. Taken on trust: the answer depends on the zone's name and the
/// instant alone; where there is an answer the instant has a date and time
/// in UTC, since `timestamp_opt` goes through `DateTime::from_timestamp`.
#[verifier::external_body]
pub(crate) fn read_zone_clock(zone: &str, unix_seconds: i64) -> (shown: Option<CivilMoment>)
    ensures
        shown == civil_time_in_zone(zone@, unix_seconds as int),
        shown is Some ==> civil_time_utc(unix_seconds as int) is Some,
{
    let tz: Tz = zone.parse().ok()?;
    let t = tz.timestamp_opt(unix_seconds, 0).single()?;
    Some(CivilMoment {
        year: t.year(),
        month: t.month(),
        day: t.day(),
        hour: t.hour(),
        minute: t.minute(),
        second: t.second(),
    })
}

/// The date and time of an instant in UTC, by `DateTime::from_timestamp` of
/// `chrono`. There is none for an instant that the calendar does not reach.
/// Taken on trust: the answer depends on the instant alone.
#[verifier::external_body]
pub(crate) fn read_utc_clock(unix_seconds: i64) -> (shown: Option<CivilMoment>)
    ensures
        shown == civil_time_utc(unix_seconds as int),
{
    let t = DateTime::from_timestamp(unix_seconds, 0)?.naive_utc();
    Some(CivilMoment {
        year: t.year(),
        month: t.month(),
        day: t.day(),
        hour: t.hour(),
        minute: t.minute(),
        second: t.second(),
    })
}

/// The present instant in seconds since 1970-01-01 00:00:00 UTC, by
/// `Utc::now` of `chrono`, which takes the system clock to stand at or after
/// that moment. Nothing is known of the number.
#[verifier::external_body]
pub(crate) fn clock_seconds() -> i64 {
    Utc::now().timestamp()
}

} // verus!
