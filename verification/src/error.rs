//! The ways in which a request for a date line can fail.

use vstd::prelude::*;

verus! {

/// Why no date line could be produced. Every failure ends the request: there
/// is no partial output and nothing is tried again.
#[derive(Clone, Copy, Debug, PartialEq, Eq, Structural)]
pub enum DateError {
    /// The geocoder knows no place of the given name.
    LocationNotFound,
    /// The time zone database has no zone of the given name. The message
    /// ends with what the database says of a name that it cannot read.
    InvalidTimezoneIdentifier,
    /// Year, month and day do not name a day of the Gregorian calendar.
    InvalidDate,
    /// Hour and minute do not name a time of the 24-hour clock, or the zone's
    /// clocks skipped that local time.
    InvalidTime,
    /// The zone's clocks showed that local time twice.
    AmbiguousLocalTime,
    /// A field that should be a whole number is not one.
    NumericParse,
    /// The explicit date was not given as exactly six fields.
    ArgumentCount,
    /// A number lies outside the table it is looked up in.
    Range,
}

impl DateError {
    /// The text of the message that reports this error.
    pub open spec fn message_text(self) -> Seq<char> {
        match self {
            DateError::LocationNotFound => "Location not found"@,
            DateError::InvalidTimezoneIdentifier => "Invalid timezone: failed to parse timezone"@,
            DateError::InvalidDate => "Invalid date"@,
            DateError::InvalidTime => "Invalid time"@,
            DateError::AmbiguousLocalTime => "Ambiguous local time"@,
            DateError::NumericParse => "Invalid number"@,
            DateError::ArgumentCount =>
                "Expected 6 arguments for datetime (year month day hour minute location)"@,
            DateError::Range => "Year outside the numeral table"@,
        }
    }

    /// The message that reports this error.
    pub fn message(&self) -> (text: &'static str)
        ensures
            text@ == self.message_text(),
    {
        match self {
            DateError::LocationNotFound => "Location not found",
            DateError::InvalidTimezoneIdentifier => "Invalid timezone: failed to parse timezone",
            DateError::InvalidDate => "Invalid date",
            DateError::InvalidTime => "Invalid time",
            DateError::AmbiguousLocalTime => "Ambiguous local time",
            DateError::NumericParse => "Invalid number",
            DateError::ArgumentCount =>
                "Expected 6 arguments for datetime (year month day hour minute location)",
            DateError::Range => "Year outside the numeral table",
        }
    }
}

} // verus!
