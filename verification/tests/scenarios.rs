use tdate::geo::first_match;
use tdate::oz::LIBER_OZ;
use tdate::request::DEFAULT_LOCATION;
use tdate::{
    CalendarInput, DateError, Request, ThelemicDate, ThelemicWeekday, ThelemicYear,
    ZodiacPlacement, ZodiacSign,
};

fn strings(fields: &[&str]) -> Vec<String> {
    fields.iter().map(|field| field.to_string()).collect()
}

#[test]
fn epoch_moment_is_year_nought() {
    let date = ThelemicDate::in_day(1904, 3, 20, 12, 0, "Greenwich").unwrap();
    assert_eq!(date.year, ThelemicYear { cycle_i: 0, cycle_ii: 0 });
    assert_eq!(date.year.label(), "00");
    assert_eq!(date.weekday, ThelemicWeekday::Solis);
    assert_eq!(date.utc.year, 1904);
    assert_eq!((date.utc.month, date.utc.day), (3, 20));
    assert_eq!((date.utc.hour, date.utc.minute, date.utc.second), (12, 0, 0));
}

#[test]
fn day_before_the_equinox_counts_from_1905() {
    let before = ThelemicDate::in_day(1905, 3, 19, 0, 0, "Greenwich").unwrap();
    assert_eq!(before.year, ThelemicYear { cycle_i: 0, cycle_ii: 0 });
    assert_eq!(before.year.label(), "00");
    let on = ThelemicDate::in_day(1905, 3, 20, 0, 0, "Greenwich").unwrap();
    assert_eq!(on.year, ThelemicYear { cycle_i: 0, cycle_ii: 1 });
    assert_eq!(on.year.label(), "0i");
    assert_eq!(
        ThelemicYear::for_explicit_date(1905, 3, 19),
        Ok(ThelemicYear { cycle_i: 0, cycle_ii: 0 })
    );
    assert_eq!(
        ThelemicYear::for_explicit_date(1905, 2, 28),
        Ok(ThelemicYear { cycle_i: 0, cycle_ii: 0 })
    );
    assert_eq!(
        ThelemicYear::for_explicit_date(1905, 4, 1),
        Ok(ThelemicYear { cycle_i: 0, cycle_ii: 1 })
    );
}

#[test]
fn days_of_1904_before_the_era_have_no_year() {
    assert_eq!(ThelemicYear::for_explicit_date(1904, 3, 19), Err(DateError::Range));
    assert_eq!(
        ThelemicDate::in_day(1904, 1, 1, 0, 0, "Greenwich"),
        Err(DateError::Range)
    );
    // Read from the clock the same year counts from its first day.
    assert_eq!(
        ThelemicYear::for_current_year(1904),
        Ok(ThelemicYear { cycle_i: 0, cycle_ii: 0 })
    );
}

#[test]
fn spring_forward_gap_is_rejected() {
    // On 2024-03-10 the clocks of Los Angeles went from 02:00 to 03:00.
    let date = ThelemicDate::in_day(2024, 3, 10, 2, 30, "America/Los_Angeles");
    assert_eq!(date, Err(DateError::InvalidTime));
    let before = ThelemicDate::in_day(2024, 3, 10, 1, 59, "America/Los_Angeles").unwrap();
    assert_eq!((before.utc.day, before.utc.hour, before.utc.minute), (10, 9, 59));
    let after = ThelemicDate::in_day(2024, 3, 10, 3, 0, "America/Los_Angeles").unwrap();
    assert_eq!((after.utc.day, after.utc.hour, after.utc.minute), (10, 10, 0));
}

#[test]
fn fall_back_fold_is_ambiguous() {
    // On 2024-11-03 the clocks of Los Angeles showed 01:00 to 02:00 twice.
    let date = ThelemicDate::in_day(2024, 11, 3, 1, 30, "America/Los_Angeles");
    assert_eq!(date, Err(DateError::AmbiguousLocalTime));
    let after = ThelemicDate::in_day(2024, 11, 3, 2, 0, "America/Los_Angeles").unwrap();
    assert_eq!((after.utc.day, after.utc.hour, after.utc.minute), (3, 10, 0));
}

#[test]
fn liber_oz_overrides_every_other_argument() {
    assert_eq!(Request::from_args(true, None, None), Ok(Request::LiberOz));
    assert_eq!(
        Request::from_args(true, Some("Cairo".to_string()), None),
        Ok(Request::LiberOz)
    );
    assert_eq!(
        Request::from_args(
            true,
            Some("Cairo".to_string()),
            Some(strings(&["1904", "4", "8", "12", "0", "Cairo"]))
        ),
        Ok(Request::LiberOz)
    );
    // Not even fields that would be refused stand in its way.
    assert_eq!(
        Request::from_args(true, None, Some(strings(&["year", "4"]))),
        Ok(Request::LiberOz)
    );
}

#[test]
fn liber_oz_is_the_fixed_text() {
    let lines = vec![
        "",
        "LIBER LXXVII",
        "OZ",
        "",
        "\"the law of",
        "the strong:",
        "this is our law",
        "and the joy",
        "of the world.\" AL. II. 21",
        "",
        "\"Do what thou wilt shall be the whole of the Law.\" --AL. I. 40",
        "",
        "\"thou hast no right but to do thy will. Do that, and no other shall say nay.\" --AL. I. 42-3",
        "",
        "\"Every man and every woman is a star.\" --AL. I. 3",
        "",
        "There is no god but man.",
        "",
        "1. Man has the right to live by his own law--",
        "        to live in the way that he wills to do:",
        "        to work as he will:",
        "        to play as he will:",
        "        to rest as he will:",
        "        to die when and how he will.",
        "",
        "2. Man has the right to eat what he will:",
        "        to drink what he will:",
        "        to dwell where he will:",
        "        to move as he will on the face of the earth.",
        "",
        "3. Man has the right to think what he will:",
        "        to speak what he will:",
        "        to write what he will:",
        "        to draw, paint, carve, etch, mould, build as he will:",
        "        to dress as he will.",
        "",
        "4. Man has the right to love as he will:--",
        "        \"take your fill and will of love as ye will,",
        "        when, where, and with whom ye will.\" --AL. I. 51",
        "",
        "5. Man has the right to kill those who would thwart these rights.",
        "",
        "\"the slaves shall serve.\" --AL. II. 58",
        "",
        "\"Love is the law, love under will.\" --AL. I. 57",
        "",
    ];
    assert_eq!(LIBER_OZ, lines.join("\n"));
    assert!(LIBER_OZ.starts_with("\nLIBER LXXVII\nOZ\n"));
    assert!(LIBER_OZ.ends_with("\"Love is the law, love under will.\" --AL. I. 57\n"));
    assert_eq!(LIBER_OZ.lines().count(), 45);
}

#[test]
fn no_match_is_location_not_found() {
    let nothing: Vec<(i32, i32)> = Vec::new();
    let found = first_match(nothing);
    assert_eq!(found, Err(DateError::LocationNotFound));
    assert_eq!(DateError::LocationNotFound.message(), "Location not found");
}

#[test]
fn an_answer_without_matches_has_no_date_whatever_the_moment() {
    let explicit = CalendarInput::Explicit { year: 2024, month: 6, day: 1, hour: 12, minute: 0 };
    assert_eq!(
        ThelemicDate::resolve_located(explicit, Vec::new()),
        Err(DateError::LocationNotFound)
    );
    assert_eq!(
        ThelemicDate::resolve_located(CalendarInput::Now, Vec::new()),
        Err(DateError::LocationNotFound)
    );
    // The place is missed before the date is looked at.
    let bad = CalendarInput::Explicit { year: 1800, month: 2, day: 30, hour: 24, minute: 60 };
    assert_eq!(ThelemicDate::resolve_located(bad, Vec::new()), Err(DateError::LocationNotFound));
}

#[test]
fn the_first_match_is_the_place() {
    let explicit = CalendarInput::Explicit { year: 2024, month: 6, day: 1, hour: 12, minute: 0 };
    let zones = strings(&["Asia/Tokyo", "America/Los_Angeles", "Nowhere"]);
    assert_eq!(
        ThelemicDate::resolve_located(explicit, zones),
        ThelemicDate::in_day(2024, 6, 1, 12, 0, "Asia/Tokyo")
    );
    let zones = strings(&["", "Asia/Tokyo"]);
    assert_eq!(
        ThelemicDate::resolve_located(explicit, zones),
        Err(DateError::InvalidTimezoneIdentifier)
    );
    assert!(ThelemicDate::resolve_located(CalendarInput::Now, strings(&["UTC"])).is_ok());
}

#[test]
fn first_of_several_matches_is_taken() {
    assert_eq!(first_match(vec![7]), Ok(7));
    assert_eq!(first_match(vec![(3, 4), (5, 6), (7, 8)]), Ok((3, 4)));
    assert_eq!(
        first_match(vec!["a".to_string(), "b".to_string()]),
        Ok("a".to_string())
    );
}

#[test]
fn no_arguments_ask_for_now_at_the_default_place() {
    assert_eq!(DEFAULT_LOCATION, "Las Vegas, NV");
    assert_eq!(
        Request::from_args(false, None, None),
        Ok(Request::Date { input: CalendarInput::Now, location: "Las Vegas, NV".to_string() })
    );
}

#[test]
fn location_flag_asks_for_now_at_that_place() {
    assert_eq!(
        Request::from_args(false, Some("Cefalu, Sicily".to_string()), None),
        Ok(Request::Date { input: CalendarInput::Now, location: "Cefalu, Sicily".to_string() })
    );
}

#[test]
fn six_fields_ask_for_an_explicit_date() {
    let request = Request::from_args(
        false,
        Some("ignored".to_string()),
        Some(strings(&["1904", "4", "8", "12", "0", "Cairo, Egypt"])),
    );
    assert_eq!(
        request,
        Ok(Request::Date {
            input: CalendarInput::Explicit { year: 1904, month: 4, day: 8, hour: 12, minute: 0 },
            location: "Cairo, Egypt".to_string(),
        })
    );
}

#[test]
fn a_field_that_is_no_number_is_a_numeric_parse_error() {
    for (index, bad) in ["x", "", "1.5", " 3", "-1", "4294967296"].iter().enumerate() {
        for place in 1..5 {
            let mut fields = strings(&["2024", "6", "1", "12", "0", "Paris"]);
            fields[place] = bad.to_string();
            assert_eq!(
                Request::from_args(false, None, Some(fields)),
                Err(DateError::NumericParse),
                "field {} set to case {}",
                place,
                index
            );
        }
    }
    for bad in ["x", "", "1.5", " 3", "2147483648", "-2147483649", "19o4"] {
        let mut fields = strings(&["2024", "6", "1", "12", "0", "Paris"]);
        fields[0] = bad.to_string();
        assert_eq!(CalendarInput::from_fields(&fields), Err(DateError::NumericParse));
    }
    // The year may be negative, the location need not be a number.
    assert_eq!(
        CalendarInput::from_fields(&strings(&["-44", "+3", "15", "012", "00", "Roma"])),
        Ok(CalendarInput::Explicit { year: -44, month: 3, day: 15, hour: 12, minute: 0 })
    );
}

#[test]
fn another_number_of_fields_is_an_argument_count_error() {
    assert_eq!(
        CalendarInput::from_fields(&strings(&["2024", "6", "1", "12", "0"])),
        Err(DateError::ArgumentCount)
    );
    assert_eq!(
        CalendarInput::from_fields(&strings(&["2024", "6", "1", "12", "0", "Paris", "France"])),
        Err(DateError::ArgumentCount)
    );
    assert_eq!(CalendarInput::from_fields(&Vec::new()), Err(DateError::ArgumentCount));
    assert_eq!(
        Request::from_args(false, None, Some(strings(&["x", "y"]))),
        Err(DateError::ArgumentCount)
    );
    assert_eq!(
        DateError::ArgumentCount.message(),
        "Expected 6 arguments for datetime (year month day hour minute location)"
    );
}

#[test]
fn line_of_the_epoch_moment() {
    let date = ThelemicDate::in_day(1904, 3, 20, 12, 0, "Greenwich").unwrap();
    let sun = ZodiacPlacement::from_degrees(359);
    let moon = ZodiacPlacement::from_degrees(42);
    assert_eq!(sun, ZodiacPlacement { sign: ZodiacSign::Pisces, degree: 29 });
    assert_eq!(moon, ZodiacPlacement { sign: ZodiacSign::Taurus, degree: 12 });
    assert_eq!(
        date.line(&sun, &moon),
        "☉ in 29º Pisces : ☽ in 12º Taurus : dies Solis : Anno 00 æræ legis"
    );
}
