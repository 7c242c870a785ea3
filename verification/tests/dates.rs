//! The literal date-parsing vectors for the upstream text forms.

use tibia_api::time::CalendarDate;
use tibia_api::time::UtcDateTime;
use tibia_api::time::epoch_to_utc;
use tibia_api::time::resolve_expiry;
use tibia_api::timeparse::TibiaTime;
use tibia_api::timeparse::parse_cet_datetime;
use tibia_api::timeparse::parse_month_day_year;
use tibia_api::text::to_chars;

#[test]
fn it_can_parse_record_date_time_cet() {
    let input = "Nov 28 2007, 19:26:00 CET";
    let expected = "2007-11-28T18:26:00+00:00";

    let output = TibiaTime::from_str(input).unwrap().to_string();
    assert_eq!(expected, output);
}

#[test]
fn it_can_parse_record_date_time_cest() {
    let input = "Nov 28 2007, 19:26:00 CEST";
    let expected = "2007-11-28T17:26:00+00:00";

    let output = TibiaTime::from_str(input).unwrap().to_string();
    assert_eq!(expected, output);
}

#[test]
fn it_can_parse_battle_eye_date() {
    let input = "August 29, 2017";
    let expected = "2017-08-29";

    let output = TibiaTime::from_str(input).unwrap().to_string();
    assert_eq!(expected, output);
}

#[test]
fn it_can_parse_old_created_date() {
    let input = "10/20";
    let expected = "2020-10";

    let output = TibiaTime::from_str(input).unwrap().to_string();
    assert_eq!(expected, output);
}

#[test]
fn it_can_parse_new_created_date() {
    let input = "October 2020";
    let expected = "2020-10";

    let output = TibiaTime::from_str(input).unwrap().to_string();
    assert_eq!(expected, output);
}

#[test]
fn cet_offset_borrows_across_midnight() {
    let cs = to_chars("Jan 1 2020, 00:30:00 CET");
    let dt = parse_cet_datetime(&cs).unwrap();
    assert_eq!(
        dt,
        UtcDateTime { year: 2019, month: 12, day: 31, hour: 23, minute: 30, second: 0 }
    );
}

#[test]
fn full_month_names_parse_too() {
    let cs = to_chars("November 28 2007, 19:26:00 CEST");
    let dt = parse_cet_datetime(&cs).unwrap();
    assert_eq!(
        dt,
        UtcDateTime { year: 2007, month: 11, day: 28, hour: 17, minute: 26, second: 0 }
    );
}

#[test]
fn invalid_timezone_label_is_rejected() {
    let cs = to_chars("Nov 28 2007, 19:26:00 UTC");
    assert!(parse_cet_datetime(&cs).is_none());
    assert!(TibiaTime::from_str("Nov 28 2007, 19:26:00 UTC").is_err());
}

#[test]
fn invalid_calendar_dates_are_rejected() {
    let cs = to_chars("February 30, 2017");
    assert!(parse_month_day_year(&cs).is_none());
    let cs = to_chars("Feb 29, 2020");
    assert_eq!(
        parse_month_day_year(&cs).unwrap(),
        CalendarDate { year: 2020, month: 2, day: 29 }
    );
    let cs = to_chars("Feb 29, 2021");
    assert!(parse_month_day_year(&cs).is_none());
}

#[test]
fn epoch_round_trips_to_civil_time() {
    let dt = epoch_to_utc(0);
    assert_eq!(dt, UtcDateTime { year: 1970, month: 1, day: 1, hour: 0, minute: 0, second: 0 });
    let dt = epoch_to_utc(1700121600);
    assert_eq!(
        dt,
        UtcDateTime { year: 2023, month: 11, day: 16, hour: 8, minute: 0, second: 0 }
    );
}

#[test]
fn day_countdowns_anchor_at_the_server_save() {
    // 2023-11-14T22:13:20Z, two days left: anchored at 08:00 of the same
    // day, plus two days.
    let dt = resolve_expiry(1700000000, 2, true).unwrap();
    assert_eq!(
        dt,
        UtcDateTime { year: 2023, month: 11, day: 16, hour: 8, minute: 0, second: 0 }
    );
}

#[test]
fn hour_countdowns_anchor_at_the_next_hour() {
    let dt = resolve_expiry(1700000000, 2, false).unwrap();
    assert_eq!(
        dt,
        UtcDateTime { year: 2023, month: 11, day: 15, hour: 1, minute: 0, second: 0 }
    );
}
