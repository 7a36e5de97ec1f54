//! The year of the Thelemic era and the numerals it is written in.
//!
//! The era begins in 1904 and its years are counted in cycles of twenty-two.
//! A year is written as two numerals without a separator: the number of
//! complete cycles in capitals, then the year within the cycle in small
//! letters. Nought is written `0`, the other numbers as Roman numerals.

use vstd::prelude::*;
use vstd::string::*;

use crate::error::DateError;

verus! {

/// The Gregorian year in which the era begins.
pub const EPOCH_YEAR: i64 = 1904;

/// The month and the day on which the year of the era begins: the spring
/// equinox, taken as the twentieth of March.
pub const NEW_YEAR_MONTH: u32 = 3;

pub const NEW_YEAR_DAY: u32 = 20;

/// The number of years in a cycle.
pub const CYCLE_LENGTH: i64 = 22;

/// The greatest number that has a numeral.
pub const MAX_NUMERAL: usize = 22;

/// The last year of the era that can be written: twenty-two complete cycles
/// and the last year of the cycle after them.
pub const MAX_TOTAL_YEARS: i64 = 505;

/// `count` copies of `c`.
pub open spec fn repeated(c: char, count: nat) -> Seq<char> {
    Seq::new(count, |i: int| c)
}

/// The Roman numeral of a number from nought to nine, in small letters;
/// nought has none.
pub open spec fn roman_units(n: nat) -> Seq<char> {
    if n <= 3 {
        repeated('i', n)
    } else if n == 4 {
        seq!['i', 'v']
    } else if n <= 8 {
        seq!['v'] + repeated('i', (n - 5) as nat)
    } else {
        seq!['i', 'x']
    }
}

/// The Roman numeral of a number from one to thirty-nine, in small letters.
pub open spec fn roman(n: nat) -> Seq<char> {
    repeated('x', n / 10) + roman_units(n % 10)
}

/// The numeral of `index` in small letters.
pub open spec fn numeral_text(index: nat) -> Seq<char> {
    if index == 0 {
        seq!['0']
    } else {
        roman(index)
    }
}

/// The capital of a small Latin letter; any other character is left as it is.
pub open spec fn ascii_upper(c: char) -> char {
    if 'a' <= c && c <= 'z' {
        ((c as u8 - 32) as u8) as char
    } else {
        c
    }
}

/// `text` with its small Latin letters turned into capitals.
pub open spec fn upper_text(text: Seq<char>) -> Seq<char> {
    text.map_values(|c: char| ascii_upper(c))
}

/// The numeral of `index` in small letters.
fn small_numeral(index: usize) -> (text: &'static str)
    requires
        index <= MAX_NUMERAL,
    ensures
        text@ == numeral_text(index as nat),
{
    let text: &'static str = match index {
        0 => "0",
        1 => "i",
        2 => "ii",
        3 => "iii",
        4 => "iv",
        5 => "v",
        6 => "vi",
        7 => "vii",
        8 => "viii",
        9 => "ix",
        10 => "x",
        11 => "xi",
        12 => "xii",
        13 => "xiii",
        14 => "xiv",
        15 => "xv",
        16 => "xvi",
        17 => "xvii",
        18 => "xviii",
        19 => "xix",
        20 => "xx",
        21 => "xxi",
        _ => "xxii",
    };
    proof {
        reveal_strlit("0");
        reveal_strlit("i");
        reveal_strlit("ii");
        reveal_strlit("iii");
        reveal_strlit("iv");
        reveal_strlit("v");
        reveal_strlit("vi");
        reveal_strlit("vii");
        reveal_strlit("viii");
        reveal_strlit("ix");
        reveal_strlit("x");
        reveal_strlit("xi");
        reveal_strlit("xii");
        reveal_strlit("xiii");
        reveal_strlit("xiv");
        reveal_strlit("xv");
        reveal_strlit("xvi");
        reveal_strlit("xvii");
        reveal_strlit("xviii");
        reveal_strlit("xix");
        reveal_strlit("xx");
        reveal_strlit("xxi");
        reveal_strlit("xxii");
        assert(text@ =~= numeral_text(index as nat));
    }
    text
}

/// The numeral of `index` in capitals.
fn capital_numeral(index: usize) -> (text: &'static str)
    requires
        index <= MAX_NUMERAL,
    ensures
        text@ == upper_text(numeral_text(index as nat)),
{
    let text: &'static str = match index {
        0 => "0",
        1 => "I",
        2 => "II",
        3 => "III",
        4 => "IV",
        5 => "V",
        6 => "VI",
        7 => "VII",
        8 => "VIII",
        9 => "IX",
        10 => "X",
        11 => "XI",
        12 => "XII",
        13 => "XIII",
        14 => "XIV",
        15 => "XV",
        16 => "XVI",
        17 => "XVII",
        18 => "XVIII",
        19 => "XIX",
        20 => "XX",
        21 => "XXI",
        _ => "XXII",
    };
    proof {
        reveal_strlit("0");
        reveal_strlit("I");
        reveal_strlit("II");
        reveal_strlit("III");
        reveal_strlit("IV");
        reveal_strlit("V");
        reveal_strlit("VI");
        reveal_strlit("VII");
        reveal_strlit("VIII");
        reveal_strlit("IX");
        reveal_strlit("X");
        reveal_strlit("XI");
        reveal_strlit("XII");
        reveal_strlit("XIII");
        reveal_strlit("XIV");
        reveal_strlit("XV");
        reveal_strlit("XVI");
        reveal_strlit("XVII");
        reveal_strlit("XVIII");
        reveal_strlit("XIX");
        reveal_strlit("XX");
        reveal_strlit("XXI");
        reveal_strlit("XXII");
        assert(text@ =~= upper_text(numeral_text(index as nat)));
    }
    text
}

/// The numeral of `index` in small letters. A number above twenty-two has no
/// numeral: that is a `Range` error.
pub fn numeral(index: usize) -> (text: Result<&'static str, DateError>)
    ensures
        index <= MAX_NUMERAL ==> text is Ok && text->Ok_0@ == numeral_text(index as nat),
        index > MAX_NUMERAL ==> text == Err::<&'static str, DateError>(DateError::Range),
{
    if index <= MAX_NUMERAL {
        Ok(small_numeral(index))
    } else {
        Err(DateError::Range)
    }
}

/// The numeral of `index` in capitals. A number above twenty-two has no
/// numeral: that is a `Range` error.
pub fn numeral_upper(index: usize) -> (text: Result<&'static str, DateError>)
    ensures
        index <= MAX_NUMERAL ==> text is Ok && text->Ok_0@ == upper_text(
            numeral_text(index as nat),
        ),
        index > MAX_NUMERAL ==> text == Err::<&'static str, DateError>(DateError::Range),
{
    if index <= MAX_NUMERAL {
        Ok(capital_numeral(index))
    } else {
        Err(DateError::Range)
    }
}

/// The years of the era that have passed on an explicit date: the year of
/// the era begins at the spring equinox, taken as the twentieth of March.
pub open spec fn explicit_total_years(year: int, month: int, day: int) -> int {
    if month < NEW_YEAR_MONTH || (month == NEW_YEAR_MONTH && day < NEW_YEAR_DAY) {
        year - EPOCH_YEAR - 1
    } else {
        year - EPOCH_YEAR
    }
}

/// The years of the era that have passed in the Gregorian year `year`, read
/// from the clock: the equinox is not looked at.
pub open spec fn current_total_years(year: int) -> int {
    year - EPOCH_YEAR
}

/// Whether a count of years can be written with the numerals.
pub open spec fn in_numeral_range(total_years: int) -> bool {
    0 <= total_years <= MAX_TOTAL_YEARS
}

/// A year of the era: complete cycles and the year within the cycle.
#[derive(Clone, Copy, Debug, PartialEq, Eq, Structural)]
pub struct ThelemicYear {
    /// The number of complete cycles.
    pub cycle_i: u8,
    /// The year within the current cycle.
    pub cycle_ii: u8,
}

impl ThelemicYear {
    /// Both parts have a numeral, and the year within the cycle is less than
    /// a cycle.
    pub open spec fn wf(self) -> bool {
        self.cycle_i <= MAX_NUMERAL && self.cycle_ii < CYCLE_LENGTH
    }

    /// The years of the era that have passed.
    pub open spec fn total_years(self) -> int {
        self.cycle_i * CYCLE_LENGTH + self.cycle_ii
    }

    /// The year that `total_years` years of the era have led to.
    pub open spec fn of_total(total_years: int) -> ThelemicYear {
        ThelemicYear {
            cycle_i: (total_years / CYCLE_LENGTH as int) as u8,
            cycle_ii: (total_years % CYCLE_LENGTH as int) as u8,
        }
    }

    /// The year as it is written.
    pub open spec fn label_text(self) -> Seq<char> {
        upper_text(numeral_text(self.cycle_i as nat)) + numeral_text(self.cycle_ii as nat)
    }

    /// The outcome of writing `total_years` as a year of the era.
    pub open spec fn from_total_years_spec(total_years: int) -> Result<ThelemicYear, DateError> {
        if in_numeral_range(total_years) {
            Ok(ThelemicYear::of_total(total_years))
        } else {
            Err(DateError::Range)
        }
    }

    /// Splits a count of years into cycles and the year within the cycle. A
    /// count below nought or beyond the numerals is a `Range` error.
    pub fn from_total_years(total_years: i64) -> (year: Result<ThelemicYear, DateError>)
        ensures
            year == ThelemicYear::from_total_years_spec(total_years as int),
            year matches Ok(y) ==> y.wf() && y.total_years() == total_years,
    {
        if total_years < 0 || total_years > MAX_TOTAL_YEARS {
            return Err(DateError::Range);
        }
        let cycle_i: i64 = total_years / CYCLE_LENGTH;
        let cycle_ii: i64 = total_years - cycle_i * CYCLE_LENGTH;
        Ok(ThelemicYear { cycle_i: cycle_i as u8, cycle_ii: cycle_ii as u8 })
    }

    /// The year of the era on an explicit date.
    pub fn for_explicit_date(year: i32, month: u32, day: u32) -> (result: Result<
        ThelemicYear,
        DateError,
    >)
        ensures
            result == ThelemicYear::from_total_years_spec(
                explicit_total_years(year as int, month as int, day as int),
            ),
            result matches Ok(y) ==> y.wf(),
    {
        let total: i64 = if month < NEW_YEAR_MONTH || (month == NEW_YEAR_MONTH && day
            < NEW_YEAR_DAY) {
            year as i64 - EPOCH_YEAR - 1
        } else {
            year as i64 - EPOCH_YEAR
        };
        ThelemicYear::from_total_years(total)
    }

    /// The year of the era in the Gregorian year `year`, read from the clock.
    pub fn for_current_year(year: i32) -> (result: Result<ThelemicYear, DateError>)
        ensures
            result == ThelemicYear::from_total_years_spec(current_total_years(year as int)),
            result matches Ok(y) ==> y.wf(),
    {
        ThelemicYear::from_total_years(year as i64 - EPOCH_YEAR)
    }

    /// The year as it is written: the cycles in capitals, then the year within
    /// the cycle in small letters.
    pub fn label(&self) -> (text: String)
        requires
            self.wf(),
        ensures
            text@ == self.label_text(),
    {
        let mut text = String::from_str(capital_numeral(self.cycle_i as usize));
        text.append(small_numeral(self.cycle_ii as usize));
        text
    }
}

/// A count of years that can be written splits into at most twenty-two
/// cycles and a year within the cycle below twenty-two, and the two parts
/// give the count back.
pub proof fn lemma_cycles_round_trip(total_years: int)
    requires
        in_numeral_range(total_years),
    ensures
        ThelemicYear::from_total_years_spec(total_years) == Ok::<ThelemicYear, DateError>(
            ThelemicYear::of_total(total_years),
        ),
        0 <= ThelemicYear::of_total(total_years).cycle_i <= 22,
        0 <= ThelemicYear::of_total(total_years).cycle_ii <= 21,
        ThelemicYear::of_total(total_years).cycle_i * 22 + ThelemicYear::of_total(
            total_years,
        ).cycle_ii == total_years,
{
}

/// Read from the clock, every Gregorian year from 1904 up to, but not
/// including, 1904 + 22 * 23 has a year of the era, whose parts are at most
/// twenty-two and twenty-one and give back the years since 1904.
pub proof fn lemma_clock_years_in_range(year: int)
    requires
        1904 <= year < 1904 + 22 * 23,
    ensures
        ThelemicYear::from_total_years_spec(current_total_years(year)) is Ok,
        0 <= ThelemicYear::of_total(current_total_years(year)).cycle_i <= 22,
        0 <= ThelemicYear::of_total(current_total_years(year)).cycle_ii <= 21,
        ThelemicYear::of_total(current_total_years(year)).cycle_i * 22 + ThelemicYear::of_total(
            current_total_years(year),
        ).cycle_ii == year - 1904,
{
}

/// The same holds of an explicit date in those years, in which the year of
/// the era begins on the twentieth of March, but for the days of 1904 that
/// lie before the era.
pub proof fn lemma_explicit_years_in_range(year: int, month: int, day: int)
    requires
        1904 <= year < 1904 + 22 * 23,
        year > 1904 || !(month < 3 || (month == 3 && day < 20)),
    ensures
        ThelemicYear::from_total_years_spec(explicit_total_years(year, month, day)) is Ok,
        0 <= ThelemicYear::of_total(explicit_total_years(year, month, day)).cycle_i <= 22,
        0 <= ThelemicYear::of_total(explicit_total_years(year, month, day)).cycle_ii <= 21,
        ThelemicYear::of_total(explicit_total_years(year, month, day)).cycle_i * 22
            + ThelemicYear::of_total(explicit_total_years(year, month, day)).cycle_ii
            == explicit_total_years(year, month, day),
{
}

} // verus!
