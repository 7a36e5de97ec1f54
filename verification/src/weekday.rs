//! The days of the week and their Latin names.

use vstd::prelude::*;

use crate::error::DateError;

verus! {

/// A day of the seven-day week.
#[derive(Clone, Copy, Debug, PartialEq, Eq, Structural)]
pub enum Weekday {
    Mon,
    Tue,
    Wed,
    Thu,
    Fri,
    Sat,
    Sun,
}

/// A day of the week under its Latin name.
#[derive(Clone, Copy, Debug, PartialEq, Eq, Structural)]
pub enum ThelemicWeekday {
    Lunae,
    Martis,
    Mercurii,
    Jovis,
    Veneris,
    Saturnii,
    Solis,
}

impl Weekday {
    /// The day that lies `index` days after Monday, for `0 <= index < 7`.
    pub open spec fn at(index: int) -> Weekday {
        if index == 0 {
            Weekday::Mon
        } else if index == 1 {
            Weekday::Tue
        } else if index == 2 {
            Weekday::Wed
        } else if index == 3 {
            Weekday::Thu
        } else if index == 4 {
            Weekday::Fri
        } else if index == 5 {
            Weekday::Sat
        } else {
            Weekday::Sun
        }
    }

    /// The number of days from Monday to this day.
    pub open spec fn index(self) -> int {
        match self {
            Weekday::Mon => 0,
            Weekday::Tue => 1,
            Weekday::Wed => 2,
            Weekday::Thu => 3,
            Weekday::Fri => 4,
            Weekday::Sat => 5,
            Weekday::Sun => 6,
        }
    }
}

/// The number of days from Monday to `weekday`.
pub fn weekday_to_index(weekday: Weekday) -> (index: usize)
    ensures
        index == weekday.index(),
        index < 7,
{
    match weekday {
        Weekday::Mon => 0,
        Weekday::Tue => 1,
        Weekday::Wed => 2,
        Weekday::Thu => 3,
        Weekday::Fri => 4,
        Weekday::Sat => 5,
        Weekday::Sun => 6,
    }
}

impl ThelemicWeekday {
    /// The place of this day in the week that begins with `Lunae`.
    pub open spec fn index(self) -> int {
        match self {
            ThelemicWeekday::Lunae => 0,
            ThelemicWeekday::Martis => 1,
            ThelemicWeekday::Mercurii => 2,
            ThelemicWeekday::Jovis => 3,
            ThelemicWeekday::Veneris => 4,
            ThelemicWeekday::Saturnii => 5,
            ThelemicWeekday::Solis => 6,
        }
    }

    /// The day that stands at place `index` of the week, for `0 <= index < 7`.
    pub open spec fn at(index: int) -> ThelemicWeekday {
        if index == 0 {
            ThelemicWeekday::Lunae
        } else if index == 1 {
            ThelemicWeekday::Martis
        } else if index == 2 {
            ThelemicWeekday::Mercurii
        } else if index == 3 {
            ThelemicWeekday::Jovis
        } else if index == 4 {
            ThelemicWeekday::Veneris
        } else if index == 5 {
            ThelemicWeekday::Saturnii
        } else {
            ThelemicWeekday::Solis
        }
    }

    /// The Latin name of this day.
    pub open spec fn name_text(self) -> Seq<char> {
        match self {
            ThelemicWeekday::Lunae => "Lunae"@,
            ThelemicWeekday::Martis => "Martis"@,
            ThelemicWeekday::Mercurii => "Mercurii"@,
            ThelemicWeekday::Jovis => "Jovis"@,
            ThelemicWeekday::Veneris => "Veneris"@,
            ThelemicWeekday::Saturnii => "Saturnii"@,
            ThelemicWeekday::Solis => "Solis"@,
        }
    }

    /// The day at place `index` of the week.
    fn day_at(index: usize) -> (day: ThelemicWeekday)
        requires
            index < 7,
        ensures
            day == ThelemicWeekday::at(index as int),
            day.index() == index,
    {
        match index {
            0 => ThelemicWeekday::Lunae,
            1 => ThelemicWeekday::Martis,
            2 => ThelemicWeekday::Mercurii,
            3 => ThelemicWeekday::Jovis,
            4 => ThelemicWeekday::Veneris,
            5 => ThelemicWeekday::Saturnii,
            _ => ThelemicWeekday::Solis,
        }
    }

    /// Looks the day up by its place in the week. A place outside the week is
    /// a `Range` error.
    pub fn from_index(index: usize) -> (day: Result<ThelemicWeekday, DateError>)
        ensures
            index < 7 ==> day == Ok::<ThelemicWeekday, DateError>(ThelemicWeekday::at(index as int)),
            index >= 7 ==> day == Err::<ThelemicWeekday, DateError>(DateError::Range),
    {
        if index < 7 {
            Ok(ThelemicWeekday::day_at(index))
        } else {
            Err(DateError::Range)
        }
    }

    /// The Latin day that falls on `weekday`: the one at the same distance
    /// from Monday.
    pub fn from_weekday(weekday: Weekday) -> (day: ThelemicWeekday)
        ensures
            day == ThelemicWeekday::at(weekday.index()),
            day.index() == weekday.index(),
    {
        ThelemicWeekday::day_at(weekday_to_index(weekday))
    }

    /// The Latin name of this day.
    pub fn name(&self) -> (text: &'static str)
        ensures
            text@ == self.name_text(),
    {
        match self {
            ThelemicWeekday::Lunae => "Lunae",
            ThelemicWeekday::Martis => "Martis",
            ThelemicWeekday::Mercurii => "Mercurii",
            ThelemicWeekday::Jovis => "Jovis",
            ThelemicWeekday::Veneris => "Veneris",
            ThelemicWeekday::Saturnii => "Saturnii",
            ThelemicWeekday::Solis => "Solis",
        }
    }
}

/// The Latin name of the day that falls on `weekday`.
pub open spec fn latin_name(weekday: Weekday) -> Seq<char> {
    ThelemicWeekday::at(weekday.index()).name_text()
}

/// Every weekday has its own distance from Monday, below seven, and every
/// such distance belongs to a weekday.
pub proof fn lemma_weekday_index_bijective(a: Weekday, b: Weekday, index: int)
    ensures
        0 <= a.index() < 7,
        Weekday::at(a.index()) == a,
        a.index() == b.index() ==> a == b,
        0 <= index < 7 ==> Weekday::at(index).index() == index,
{
}

/// The weekdays and the Latin days correspond one to one: distinct weekdays
/// fall on distinct Latin days, and every Latin day is the day of a weekday.
pub proof fn lemma_latin_day_bijective(a: Weekday, b: Weekday, day: ThelemicWeekday)
    ensures
        ThelemicWeekday::at(a.index()) == ThelemicWeekday::at(b.index()) ==> a == b,
        exists|w: Weekday| ThelemicWeekday::at(w.index()) == day,
        ThelemicWeekday::at(day.index()) == day,
{
    let w = match day {
        ThelemicWeekday::Lunae => Weekday::Mon,
        ThelemicWeekday::Martis => Weekday::Tue,
        ThelemicWeekday::Mercurii => Weekday::Wed,
        ThelemicWeekday::Jovis => Weekday::Thu,
        ThelemicWeekday::Veneris => Weekday::Fri,
        ThelemicWeekday::Saturnii => Weekday::Sat,
        ThelemicWeekday::Solis => Weekday::Sun,
    };
    assert(ThelemicWeekday::at(w.index()) == day);
}

/// No two Latin days share a name.
pub proof fn lemma_latin_names_distinct(a: ThelemicWeekday, b: ThelemicWeekday)
    ensures
        a.name_text() == b.name_text() ==> a == b,
{
    reveal_strlit("Lunae");
    reveal_strlit("Martis");
    reveal_strlit("Mercurii");
    reveal_strlit("Jovis");
    reveal_strlit("Veneris");
    reveal_strlit("Saturnii");
    reveal_strlit("Solis");
    if a != b && a.name_text() == b.name_text() {
        // Names of one length differ in their second or third letter.
        assert(a.name_text().len() == b.name_text().len());
        assert(a.name_text()[1] == b.name_text()[1]);
        assert(a.name_text()[2] == b.name_text()[2]);
    }
}

/// The weekdays and the seven Latin names correspond one to one, in the
/// order of the week that begins on Monday: every weekday has one name, no
/// two weekdays share a name, and every name is the name of a weekday.
pub proof fn lemma_weekday_names_bijective(a: Weekday, b: Weekday, day: ThelemicWeekday)
    ensures
        latin_name(a) == ThelemicWeekday::at(a.index()).name_text(),
        ThelemicWeekday::at(a.index()).index() == a.index(),
        latin_name(a) == latin_name(b) ==> a == b,
        exists|w: Weekday| latin_name(w) == day.name_text(),
{
    lemma_latin_names_distinct(ThelemicWeekday::at(a.index()), ThelemicWeekday::at(b.index()));
    lemma_latin_day_bijective(a, b, day);
    let w = choose|w: Weekday| ThelemicWeekday::at(w.index()) == day;
    assert(latin_name(w) == day.name_text());
}

} // verus!
