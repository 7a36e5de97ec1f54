//! The twelve signs of the zodiac and the place of a body among them.
//!
//! The ecliptic is a circle of 360 degrees, cut into twelve sectors of thirty
//! degrees that begin with Aries at nought. A placement is the sector that a
//! longitude falls in and the whole degrees it has gone into that sector.

use vstd::arithmetic::div_mod::lemma_mod_multiples_vanish;
use vstd::prelude::*;

use crate::error::DateError;

verus! {

/// The number of signs.
pub const SIGN_COUNT: usize = 12;

/// A sign of the zodiac, in the order of the ecliptic.
#[derive(Clone, Copy, Debug, PartialEq, Eq, Structural)]
pub enum ZodiacSign {
    Aries,
    Taurus,
    Gemini,
    Cancer,
    Leo,
    Virgo,
    Libra,
    Scorpio,
    Sagittarius,
    Capricorn,
    Aquarius,
    Pisces,
}

impl ZodiacSign {
    /// The place of this sign in the order of the ecliptic, from nought.
    pub open spec fn index(self) -> int {
        match self {
            ZodiacSign::Aries => 0,
            ZodiacSign::Taurus => 1,
            ZodiacSign::Gemini => 2,
            ZodiacSign::Cancer => 3,
            ZodiacSign::Leo => 4,
            ZodiacSign::Virgo => 5,
            ZodiacSign::Libra => 6,
            ZodiacSign::Scorpio => 7,
            ZodiacSign::Sagittarius => 8,
            ZodiacSign::Capricorn => 9,
            ZodiacSign::Aquarius => 10,
            ZodiacSign::Pisces => 11,
        }
    }

    /// The sign at place `index`, for `0 <= index < 12`.
    pub open spec fn at(index: int) -> ZodiacSign {
        if index == 0 {
            ZodiacSign::Aries
        } else if index == 1 {
            ZodiacSign::Taurus
        } else if index == 2 {
            ZodiacSign::Gemini
        } else if index == 3 {
            ZodiacSign::Cancer
        } else if index == 4 {
            ZodiacSign::Leo
        } else if index == 5 {
            ZodiacSign::Virgo
        } else if index == 6 {
            ZodiacSign::Libra
        } else if index == 7 {
            ZodiacSign::Scorpio
        } else if index == 8 {
            ZodiacSign::Sagittarius
        } else if index == 9 {
            ZodiacSign::Capricorn
        } else if index == 10 {
            ZodiacSign::Aquarius
        } else {
            ZodiacSign::Pisces
        }
    }

    /// The name of this sign.
    pub open spec fn name_text(self) -> Seq<char> {
        match self {
            ZodiacSign::Aries => "Aries"@,
            ZodiacSign::Taurus => "Taurus"@,
            ZodiacSign::Gemini => "Gemini"@,
            ZodiacSign::Cancer => "Cancer"@,
            ZodiacSign::Leo => "Leo"@,
            ZodiacSign::Virgo => "Virgo"@,
            ZodiacSign::Libra => "Libra"@,
            ZodiacSign::Scorpio => "Scorpio"@,
            ZodiacSign::Sagittarius => "Sagittarius"@,
            ZodiacSign::Capricorn => "Capricorn"@,
            ZodiacSign::Aquarius => "Aquarius"@,
            ZodiacSign::Pisces => "Pisces"@,
        }
    }

    /// The sign at place `index` of the order of the ecliptic.
    fn sign_at(index: usize) -> (sign: ZodiacSign)
        requires
            index < SIGN_COUNT,
        ensures
            sign == ZodiacSign::at(index as int),
            sign.index() == index,
    {
        match index {
            0 => ZodiacSign::Aries,
            1 => ZodiacSign::Taurus,
            2 => ZodiacSign::Gemini,
            3 => ZodiacSign::Cancer,
            4 => ZodiacSign::Leo,
            5 => ZodiacSign::Virgo,
            6 => ZodiacSign::Libra,
            7 => ZodiacSign::Scorpio,
            8 => ZodiacSign::Sagittarius,
            9 => ZodiacSign::Capricorn,
            10 => ZodiacSign::Aquarius,
            _ => ZodiacSign::Pisces,
        }
    }

    /// Looks a sign up by its place in the order of the ecliptic. A place
    /// outside the twelve is a `Range` error.
    pub fn from_index(index: usize) -> (sign: Result<ZodiacSign, DateError>)
        ensures
            index < SIGN_COUNT ==> sign == Ok::<ZodiacSign, DateError>(ZodiacSign::at(index as int)),
            index >= SIGN_COUNT ==> sign == Err::<ZodiacSign, DateError>(DateError::Range),
            sign matches Ok(s) ==> s.index() == index,
    {
        if index < SIGN_COUNT {
            Ok(ZodiacSign::sign_at(index))
        } else {
            Err(DateError::Range)
        }
    }

    /// The name of this sign.
    pub fn name(&self) -> (text: &'static str)
        ensures
            text@ == self.name_text(),
    {
        match self {
            ZodiacSign::Aries => "Aries",
            ZodiacSign::Taurus => "Taurus",
            ZodiacSign::Gemini => "Gemini",
            ZodiacSign::Cancer => "Cancer",
            ZodiacSign::Leo => "Leo",
            ZodiacSign::Virgo => "Virgo",
            ZodiacSign::Libra => "Libra",
            ZodiacSign::Scorpio => "Scorpio",
            ZodiacSign::Sagittarius => "Sagittarius",
            ZodiacSign::Capricorn => "Capricorn",
            ZodiacSign::Aquarius => "Aquarius",
            ZodiacSign::Pisces => "Pisces",
        }
    }
}

/// The longitude brought into the circle: the whole degrees from nought up
/// to, but not including, 360 that differ from `whole_degrees` by full
/// turns.
pub open spec fn normalized_degrees(whole_degrees: int) -> int {
    whole_degrees % 360
}

/// The place of a body on the ecliptic: its sign and the whole degrees it
/// has gone into the sign.
#[derive(Clone, Copy, Debug, PartialEq, Eq, Structural)]
pub struct ZodiacPlacement {
    pub sign: ZodiacSign,
    pub degree: u8,
}

impl ZodiacPlacement {
    /// The degree lies within the sign.
    pub open spec fn wf(self) -> bool {
        self.degree < 30
    }

    /// The whole degrees from the beginning of Aries to this place.
    pub open spec fn ecliptic_degrees(self) -> int {
        30 * self.sign.index() + self.degree
    }

    /// The placement of a longitude given in whole degrees.
    pub open spec fn of_degrees(whole_degrees: int) -> ZodiacPlacement {
        ZodiacPlacement {
            sign: ZodiacSign::at(normalized_degrees(whole_degrees) / 30),
            degree: (normalized_degrees(whole_degrees) % 30) as u8,
        }
    }

    /// The placement of a longitude given in whole degrees, rounded down.
    /// A longitude below nought or beyond the circle is brought into the
    /// circle by full turns.
    pub fn from_degrees(whole_degrees: i64) -> (placement: ZodiacPlacement)
        ensures
            placement == ZodiacPlacement::of_degrees(whole_degrees as int),
            placement.wf(),
            0 <= placement.sign.index() <= 11,
            0 <= placement.degree <= 29,
            placement.ecliptic_degrees() == normalized_degrees(whole_degrees as int),
    {
        // The remainder of a division has the sign of what is divided.
        let turned: i64 = whole_degrees % 360;
        let normalized: i64 = if turned < 0 {
            turned + 360
        } else {
            turned
        };
        assert(normalized == normalized_degrees(whole_degrees as int));
        let sign_index: usize = ((normalized / 30) % 12) as usize;
        ZodiacPlacement { sign: ZodiacSign::sign_at(sign_index), degree: (normalized % 30) as u8 }
    }
}

/// Every longitude has a placement within the circle: a sign among the
/// twelve and a degree below thirty, which together give back the whole
/// degrees of the longitude once it is brought into the circle.
pub proof fn lemma_placement_in_circle(whole_degrees: int)
    ensures
        0 <= normalized_degrees(whole_degrees) < 360,
        0 <= ZodiacPlacement::of_degrees(whole_degrees).sign.index() <= 11,
        0 <= ZodiacPlacement::of_degrees(whole_degrees).degree <= 29,
        ZodiacPlacement::of_degrees(whole_degrees).degree + 30 * ZodiacPlacement::of_degrees(
            whole_degrees,
        ).sign.index() == normalized_degrees(whole_degrees),
{
}

/// Full turns do not move a body: a longitude and the same longitude after
/// any number of turns, forwards or backwards, have the same placement.
pub proof fn lemma_placement_periodic(whole_degrees: int, turns: int)
    ensures
        ZodiacPlacement::of_degrees(whole_degrees + 360 * turns) == ZodiacPlacement::of_degrees(
            whole_degrees,
        ),
{
    lemma_mod_multiples_vanish(turns, whole_degrees, 360);
    assert(360 * turns + whole_degrees == whole_degrees + 360 * turns);
}

/// Between one turn back and one turn forward the longitude is brought into
/// the circle by adding one turn where it is below nought; the sign is then
/// the number of whole sectors, and the degree what is left of the last one.
pub proof fn lemma_single_wrap(whole_degrees: int)
    requires
        -360 <= whole_degrees < 360,
    ensures
        whole_degrees < 0 ==> normalized_degrees(whole_degrees) == whole_degrees + 360,
        whole_degrees >= 0 ==> normalized_degrees(whole_degrees) == whole_degrees,
        ZodiacPlacement::of_degrees(whole_degrees).sign.index() == (normalized_degrees(
            whole_degrees,
        ) / 30) % 12,
        ZodiacPlacement::of_degrees(whole_degrees).degree == normalized_degrees(whole_degrees)
            % 30,
{
}

} // verus!
