//! The Thelemic date of a moment at a place, and the line that states it.
//!
//! A date is found in two steps. The first takes the local date and time, or
//! the present instant, with the name of the time zone of the place, and
//! finds the weekday, the year of the era and the moment in UTC. The
//! longitudes of the Sun and the Moon at that moment are then to be had from
//! an ephemeris, and the second step writes the line.

use vstd::prelude::*;
use vstd::string::*;

use crate::civil::{clock_time_exists, is_calendar_date, is_clock_time, CivilMoment};
use crate::error::DateError;
use crate::geo::first_match;
use crate::request::CalendarInput;
use crate::text::{decimal, decimal_text};
use crate::weekday::{ThelemicWeekday, Weekday};
use crate::year::{current_total_years, explicit_total_years, in_numeral_range, ThelemicYear};
use crate::zodiac::ZodiacPlacement;
use crate::zone::{
    civil_time_in_zone, civil_time_utc, clock_seconds, local_time_in_zone, read_utc_clock,
    read_zone_clock, resolve_local_time, weekday_of, weekday_on, zone_exists, zone_known,
    LocalTime,
};

verus! {

/// The Thelemic date of a moment: the weekday and the year of the era at the
/// place, and the moment in UTC, at which the Sun and the Moon are to be
/// looked up.
#[derive(Clone, Copy, Debug, PartialEq, Eq, Structural)]
pub struct ThelemicDate {
    /// The day of the week at the place.
    pub weekday: ThelemicWeekday,
    /// The year of the era at the place.
    pub year: ThelemicYear,
    /// The moment in UTC.
    pub utc: CivilMoment,
}

impl ThelemicDate {
    /// The year can be written.
    pub open spec fn wf(self) -> bool {
        self.year.wf()
    }

    /// The date made of a weekday, a year of the era and the moment in UTC,
    /// where the calendar reaches the moment.
    pub open spec fn assemble_spec(
        weekday: Weekday,
        year: ThelemicYear,
        utc: Option<CivilMoment>,
    ) -> Result<ThelemicDate, DateError> {
        match utc {
            Some(utc) => Ok(
                ThelemicDate { weekday: ThelemicWeekday::at(weekday.index()), year, utc },
            ),
            None => Err(DateError::Range),
        }
    }

    /// Puts a date together. A moment that the calendar does not reach is a
    /// `Range` error.
    pub fn assemble(weekday: Weekday, year: ThelemicYear, utc: Option<CivilMoment>) -> (date:
        Result<ThelemicDate, DateError>)
        ensures
            date == ThelemicDate::assemble_spec(weekday, year, utc),
    {
        match utc {
            Some(utc) => Ok(
                ThelemicDate { weekday: ThelemicWeekday::from_weekday(weekday), year, utc },
            ),
            None => Err(DateError::Range),
        }
    }

    /// The date of an explicit local date and time in a zone, or the first
    /// of the reasons for which there is none: the zone is not known, the
    /// day is no day of the calendar, its year of the era cannot be written,
    /// the time is no time of the clock, the zone's clocks did not show the
    /// time exactly once, or the calendar does not reach the instant.
    pub open spec fn in_day_spec(
        zone: Seq<char>,
        year: int,
        month: int,
        day: int,
        hour: int,
        minute: int,
    ) -> Result<ThelemicDate, DateError> {
        if !zone_known(zone) {
            Err(DateError::InvalidTimezoneIdentifier)
        } else if !is_calendar_date(year, month, day) {
            Err(DateError::InvalidDate)
        } else if !in_numeral_range(explicit_total_years(year, month, day)) {
            Err(DateError::Range)
        } else if !is_clock_time(hour, minute) {
            Err(DateError::InvalidTime)
        } else {
            match local_time_in_zone(zone, year, month, day, hour, minute, 0).single_spec() {
                Ok(instant) => ThelemicDate::assemble_spec(
                    weekday_on(year, month, day),
                    ThelemicYear::of_total(explicit_total_years(year, month, day)),
                    civil_time_utc(instant as int),
                ),
                Err(e) => Err(e),
            }
        }
    }

    /// The date at an instant in a zone, or the first of the reasons for
    /// which there is none: the zone is not known, the calendar does not
    /// reach the instant, the year that the zone's clocks show cannot be
    /// written, or, at the far ends of the calendar, the day that they show
    /// is not a day that has a weekday.
    pub open spec fn at_instant_spec(zone: Seq<char>, unix_seconds: int) -> Result<
        ThelemicDate,
        DateError,
    > {
        if !zone_known(zone) {
            Err(DateError::InvalidTimezoneIdentifier)
        } else {
            match civil_time_in_zone(zone, unix_seconds) {
                None => Err(DateError::Range),
                Some(local) => if !in_numeral_range(current_total_years(local.year as int)) {
                    Err(DateError::Range)
                } else if !is_calendar_date(
                    local.year as int,
                    local.month as int,
                    local.day as int,
                ) {
                    Err(DateError::InvalidDate)
                } else {
                    ThelemicDate::assemble_spec(
                        weekday_on(local.year as int, local.month as int, local.day as int),
                        ThelemicYear::of_total(current_total_years(local.year as int)),
                        civil_time_utc(unix_seconds),
                    )
                },
            }
        }
    }

    /// The Thelemic date of an explicit local date and time in the zone
    /// named `zone`.
    ///
    /// The weekday is that of the local date. The year of the era begins on
    /// the twentieth of March. The time is taken at second 0 of the minute
    /// and must belong to exactly one instant: a time that the zone's clocks
    /// skipped is an `InvalidTime` error and one that they showed twice an
    /// `AmbiguousLocalTime` error. A local time that belongs to one instant
    /// always has its date.
    pub fn in_day(year: i32, month: u32, day: u32, hour: u32, minute: u32, zone: &str) -> (date:
        Result<ThelemicDate, DateError>)
        ensures
            date == ThelemicDate::in_day_spec(
                zone@,
                year as int,
                month as int,
                day as int,
                hour as int,
                minute as int,
            ),
            date is Ok <==> {
                &&& zone_known(zone@)
                &&& is_calendar_date(year as int, month as int, day as int)
                &&& in_numeral_range(explicit_total_years(year as int, month as int, day as int))
                &&& is_clock_time(hour as int, minute as int)
                &&& local_time_in_zone(
                    zone@,
                    year as int,
                    month as int,
                    day as int,
                    hour as int,
                    minute as int,
                    0,
                ) is Unique
            },
            date matches Ok(d) ==> d.wf(),
    {
        if !zone_exists(zone) {
            return Err(DateError::InvalidTimezoneIdentifier);
        }
        let weekday = match weekday_of(year, month, day) {
            Some(weekday) => weekday,
            None => {
                return Err(DateError::InvalidDate);
            },
        };
        let era_year = match ThelemicYear::for_explicit_date(year, month, day) {
            Ok(era_year) => era_year,
            Err(e) => {
                return Err(e);
            },
        };
        if !clock_time_exists(hour, minute) {
            return Err(DateError::InvalidTime);
        }
        let instant = match resolve_local_time(zone, year, month, day, hour, minute, 0).single() {
            Ok(instant) => instant,
            Err(e) => {
                return Err(e);
            },
        };
        ThelemicDate::assemble(weekday, era_year, read_utc_clock(instant))
    }

    /// The Thelemic date at the instant `unix_seconds`, in seconds since
    /// 1970-01-01 00:00:00 UTC, in the zone named `zone`.
    ///
    /// The weekday and the Gregorian year are those that the zone's clocks
    /// show at the instant. The year of the era is counted from the
    /// Gregorian year alone: the equinox is not looked at.
    pub fn at_instant(unix_seconds: i64, zone: &str) -> (date: Result<ThelemicDate, DateError>)
        ensures
            date == ThelemicDate::at_instant_spec(zone@, unix_seconds as int),
            date is Ok <==> {
                &&& zone_known(zone@)
                &&& civil_time_in_zone(zone@, unix_seconds as int) matches Some(local)
                &&& in_numeral_range(current_total_years(local.year as int))
                &&& is_calendar_date(local.year as int, local.month as int, local.day as int)
            },
            date matches Ok(d) ==> d.wf(),
    {
        if !zone_exists(zone) {
            return Err(DateError::InvalidTimezoneIdentifier);
        }
        let local = match read_zone_clock(zone, unix_seconds) {
            Some(local) => local,
            None => {
                return Err(DateError::Range);
            },
        };
        let era_year = match ThelemicYear::for_current_year(local.year) {
            Ok(era_year) => era_year,
            Err(e) => {
                return Err(e);
            },
        };
        let weekday = match weekday_of(local.year, local.month, local.day) {
            Some(weekday) => weekday,
            None => {
                return Err(DateError::InvalidDate);
            },
        };
        ThelemicDate::assemble(weekday, era_year, read_utc_clock(unix_seconds))
    }

    /// The Thelemic date of the present moment in the zone named `zone`:
    /// the date at the instant that the clock shows.
    pub fn now(zone: &str) -> (date: Result<ThelemicDate, DateError>)
        ensures
            exists|instant: i64|
                date == #[trigger] ThelemicDate::at_instant_spec(zone@, instant as int),
            !zone_known(zone@) ==> date == Err::<ThelemicDate, DateError>(
                DateError::InvalidTimezoneIdentifier,
            ),
            date matches Ok(d) ==> d.wf(),
    {
        let instant: i64 = clock_seconds();
        ThelemicDate::at_instant(instant, zone)
    }

    /// The date of the moment that `input` asks for, in the zone named
    /// `zone`.
    pub fn resolve(input: CalendarInput, zone: &str) -> (date: Result<ThelemicDate, DateError>)
        ensures
            match input {
                CalendarInput::Now => exists|instant: i64|
                    date == #[trigger] ThelemicDate::at_instant_spec(zone@, instant as int),
                CalendarInput::Explicit { year, month, day, hour, minute } => date
                    == ThelemicDate::in_day_spec(
                    zone@,
                    year as int,
                    month as int,
                    day as int,
                    hour as int,
                    minute as int,
                ),
            },
            !zone_known(zone@) ==> date == Err::<ThelemicDate, DateError>(
                DateError::InvalidTimezoneIdentifier,
            ),
            date matches Ok(d) ==> d.wf(),
    {
        match input {
            CalendarInput::Now => ThelemicDate::now(zone),
            CalendarInput::Explicit { year, month, day, hour, minute } => ThelemicDate::in_day(
                year,
                month,
                day,
                hour,
                minute,
                zone,
            ),
        }
    }

    /// The date of the moment that `input` asks for at a place that a
    /// geocoder was asked for. `zones` holds the names of the time zones of
    /// the geocoder's matches, in the order of its answer: the first match
    /// is the place. An answer without matches is a `LocationNotFound`
    /// error, whatever the moment.
    pub fn resolve_located(input: CalendarInput, zones: Vec<String>) -> (date: Result<
        ThelemicDate,
        DateError,
    >)
        ensures
            zones@.len() == 0 ==> date == Err::<ThelemicDate, DateError>(
                DateError::LocationNotFound,
            ),
            zones@.len() > 0 ==> match input {
                CalendarInput::Now => exists|instant: i64|
                    date == #[trigger] ThelemicDate::at_instant_spec(zones@[0]@, instant as int),
                CalendarInput::Explicit { year, month, day, hour, minute } => date
                    == ThelemicDate::in_day_spec(
                    zones@[0]@,
                    year as int,
                    month as int,
                    day as int,
                    hour as int,
                    minute as int,
                ),
            },
            date matches Ok(d) ==> d.wf(),
    {
        match first_match(zones) {
            Ok(zone) => ThelemicDate::resolve(input, zone.as_str()),
            Err(e) => Err(e),
        }
    }

    /// The line that states this date, with the Sun at `sun` and the Moon at
    /// `moon`.
    pub open spec fn line_text(self, sun: ZodiacPlacement, moon: ZodiacPlacement) -> Seq<char> {
        "☉ in "@ + decimal_text(sun.degree as nat) + "º "@ + sun.sign.name_text() + " : ☽ in "@
            + decimal_text(moon.degree as nat) + "º "@ + moon.sign.name_text() + " : dies "@
            + self.weekday.name_text() + " : Anno "@ + self.year.label_text() + " æræ legis"@
    }

    /// Writes the line that states this date, with the Sun at `sun` and the
    /// Moon at `moon`.
    pub fn line(&self, sun: &ZodiacPlacement, moon: &ZodiacPlacement) -> (text: String)
        requires
            self.wf(),
        ensures
            text@ == self.line_text(*sun, *moon),
    {
        let sun_degree = decimal(sun.degree as u32);
        let moon_degree = decimal(moon.degree as u32);
        let label = self.year.label();
        let mut text = String::from_str("☉ in ");
        text.append(sun_degree.as_str());
        text.append("º ");
        text.append(sun.sign.name());
        text.append(" : ☽ in ");
        text.append(moon_degree.as_str());
        text.append("º ");
        text.append(moon.sign.name());
        text.append(" : dies ");
        text.append(self.weekday.name());
        text.append(" : Anno ");
        text.append(label.as_str());
        text.append(" æræ legis");
        text
    }
}

/// An explicit local time that the zone's clocks did not show exactly once
/// has no date: a skipped time is not moved to the time after the gap, and
/// of a time that came twice neither instant is taken.
pub proof fn lemma_skipped_or_repeated_time_has_no_date(
    zone: Seq<char>,
    year: int,
    month: int,
    day: int,
    hour: int,
    minute: int,
)
    ensures
        !(local_time_in_zone(zone, year, month, day, hour, minute, 0) is Unique)
            ==> ThelemicDate::in_day_spec(zone, year, month, day, hour, minute) is Err,
        zone_known(zone) && is_calendar_date(year, month, day) && in_numeral_range(
            explicit_total_years(year, month, day),
        ) && is_clock_time(hour, minute) ==> {
            &&& local_time_in_zone(zone, year, month, day, hour, minute, 0) is Missing
                ==> ThelemicDate::in_day_spec(zone, year, month, day, hour, minute) == Err::<
                ThelemicDate,
                DateError,
            >(DateError::InvalidTime)
            &&& local_time_in_zone(zone, year, month, day, hour, minute, 0) is Ambiguous
                ==> ThelemicDate::in_day_spec(zone, year, month, day, hour, minute) == Err::<
                ThelemicDate,
                DateError,
            >(DateError::AmbiguousLocalTime)
        },
{
}

/// An explicit date has a Thelemic date exactly when the zone is known, the
/// day is a day of the calendar, its year of the era can be written, the
/// time is a time of the clock, the zone's clocks showed that time once, and
/// the calendar reaches that instant. The date then holds the weekday of the
/// local day, the year of the era of the local day and the instant in UTC.
pub proof fn lemma_explicit_date_exists(
    zone: Seq<char>,
    year: int,
    month: int,
    day: int,
    hour: int,
    minute: int,
)
    ensures
        ThelemicDate::in_day_spec(zone, year, month, day, hour, minute) is Ok <==> {
            &&& zone_known(zone)
            &&& is_calendar_date(year, month, day)
            &&& in_numeral_range(explicit_total_years(year, month, day))
            &&& is_clock_time(hour, minute)
            &&& local_time_in_zone(zone, year, month, day, hour, minute, 0) matches LocalTime::Unique(
                instant,
            )
            &&& civil_time_utc(instant as int) is Some
        },
        ThelemicDate::in_day_spec(zone, year, month, day, hour, minute) matches Ok(date) ==> {
            &&& date.weekday.index() == weekday_on(year, month, day).index()
            &&& date.year.wf()
            &&& date.year.total_years() == explicit_total_years(year, month, day)
            &&& local_time_in_zone(zone, year, month, day, hour, minute, 0) matches LocalTime::Unique(
                instant,
            )
            &&& civil_time_utc(instant as int) == Some(date.utc)
        },
{
}

} // verus!
