//! The Thelemic calendar: a date line made of the zodiac placements of the
//! Sun and the Moon, the Latin name of the weekday and the year of the era
//! that began at the spring equinox of 1904.

pub mod civil;
pub mod date;
pub mod error;
pub mod geo;
pub mod number;
pub mod oz;
pub mod request;
pub mod text;
pub mod weekday;
pub mod year;
pub mod zodiac;
pub mod zone;

pub use civil::CivilMoment;
pub use date::ThelemicDate;
pub use error::DateError;
pub use request::{CalendarInput, Request};
pub use weekday::{ThelemicWeekday, Weekday};
pub use year::ThelemicYear;
pub use zodiac::{ZodiacPlacement, ZodiacSign};
pub use zone::LocalTime;
