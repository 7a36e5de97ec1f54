//! What is asked of the program: the text of Liber OZ, or the date of a
//! moment at a place.

use vstd::prelude::*;
use vstd::string::*;

use crate::error::DateError;
use crate::number::{i32_text_value, parse_i32, parse_u32, u32_text_value};

verus! {

/// The place that the date is given for where none is named.
pub const DEFAULT_LOCATION: &'static str = "Las Vegas, NV";

/// The number of fields of an explicit date: year, month, day, hour, minute
/// and location.
pub const FIELD_COUNT: usize = 6;

/// The moment that a date is asked for.
#[derive(Clone, Copy, Debug, PartialEq, Eq, Structural)]
pub enum CalendarInput {
    /// The present moment.
    Now,
    /// A local date and time at the place.
    Explicit { year: i32, month: u32, day: u32, hour: u32, minute: u32 },
}

/// A request.
#[derive(Debug, PartialEq, Eq)]
pub enum Request {
    /// Print the text of Liber OZ and nothing else.
    LiberOz,
    /// Give the date of a moment at a place.
    Date { input: CalendarInput, location: String },
}

/// A request with its text as a sequence of characters.
pub enum RequestView {
    LiberOz,
    Date { input: CalendarInput, location: Seq<char> },
}

impl View for Request {
    type V = RequestView;

    open spec fn view(&self) -> RequestView {
        match self {
            Request::LiberOz => RequestView::LiberOz,
            Request::Date { input, location } => RequestView::Date {
                input: *input,
                location: location@,
            },
        }
    }
}

impl CalendarInput {
    /// The moment that the six fields of an explicit date state. Another
    /// number of fields is an `ArgumentCount` error; a first, second, third,
    /// fourth or fifth field that is not a whole number of its type is a
    /// `NumericParse` error.
    pub open spec fn from_fields_spec(fields: Seq<String>) -> Result<CalendarInput, DateError> {
        if fields.len() != FIELD_COUNT {
            Err(DateError::ArgumentCount)
        } else {
            match (
                i32_text_value(fields[0]@),
                u32_text_value(fields[1]@),
                u32_text_value(fields[2]@),
                u32_text_value(fields[3]@),
                u32_text_value(fields[4]@),
            ) {
                (Some(year), Some(month), Some(day), Some(hour), Some(minute)) => Ok(
                    CalendarInput::Explicit { year, month, day, hour, minute },
                ),
                _ => Err(DateError::NumericParse),
            }
        }
    }

    /// Reads the moment from the six fields of an explicit date: year,
    /// month, day, hour and minute as whole numbers, and the location, which
    /// is not looked at here.
    pub fn from_fields(fields: &Vec<String>) -> (input: Result<CalendarInput, DateError>)
        ensures
            input == CalendarInput::from_fields_spec(fields@),
    {
        if fields.len() != FIELD_COUNT {
            return Err(DateError::ArgumentCount);
        }
        let year = parse_i32(fields[0].as_str());
        let month = parse_u32(fields[1].as_str());
        let day = parse_u32(fields[2].as_str());
        let hour = parse_u32(fields[3].as_str());
        let minute = parse_u32(fields[4].as_str());
        match (year, month, day, hour, minute) {
            (Some(year), Some(month), Some(day), Some(hour), Some(minute)) => Ok(
                CalendarInput::Explicit { year, month, day, hour, minute },
            ),
            _ => Err(DateError::NumericParse),
        }
    }
}

impl Request {
    /// The request that the arguments state. The flag for Liber OZ
    /// overrides everything else. Where the fields of an explicit date are
    /// given, the place is the sixth of them and `location` is not looked
    /// at. Where no place is given at all, it is `DEFAULT_LOCATION`.
    pub open spec fn from_args_spec(
        oz: bool,
        location: Option<String>,
        datetime: Option<Vec<String>>,
    ) -> Result<RequestView, DateError> {
        if oz {
            Ok(RequestView::LiberOz)
        } else {
            match datetime {
                Some(fields) => match CalendarInput::from_fields_spec(fields@) {
                    Ok(input) => Ok(RequestView::Date { input, location: fields@[5]@ }),
                    Err(e) => Err(e),
                },
                None => Ok(
                    RequestView::Date {
                        input: CalendarInput::Now,
                        location: match location {
                            Some(place) => place@,
                            None => DEFAULT_LOCATION@,
                        },
                    },
                ),
            }
        }
    }

    /// Decides what is asked from the arguments as the command line gave
    /// them: the flag for Liber OZ, the named location and the fields of an
    /// explicit date.
    pub fn from_args(oz: bool, location: Option<String>, datetime: Option<Vec<String>>) -> (request:
        Result<Request, DateError>)
        ensures
            match request {
                Ok(r) => Request::from_args_spec(oz, location, datetime) == Ok::<
                    RequestView,
                    DateError,
                >(r@),
                Err(e) => Request::from_args_spec(oz, location, datetime) == Err::<
                    RequestView,
                    DateError,
                >(e),
            },
    {
        if oz {
            return Ok(Request::LiberOz);
        }
        match datetime {
            Some(fields) => match CalendarInput::from_fields(&fields) {
                Ok(input) => Ok(Request::Date { input, location: fields[5].clone() }),
                Err(e) => Err(e),
            },
            None => {
                let place = match location {
                    Some(place) => place,
                    None => String::from_str(DEFAULT_LOCATION),
                };
                Ok(Request::Date { input: CalendarInput::Now, location: place })
            },
        }
    }
}

/// The flag for Liber OZ overrides every other argument: whatever location
/// and fields stand beside it, the request is for the text.
pub proof fn lemma_liber_oz_overrides(location: Option<String>, datetime: Option<Vec<String>>)
    ensures
        Request::from_args_spec(true, location, datetime) == Ok::<RequestView, DateError>(
            RequestView::LiberOz,
        ),
{
}

} // verus!
