use gig_tracker::act::Act;
use gig_tracker::date::{Date, Month};

#[test]
fn date_round_trips_through_its_string_form() {
    let d = Date::parse("2024/03/15").expect("structurally valid");
    assert_eq!(d.year, 2024);
    assert_eq!(d.month, Month::Mar);
    assert_eq!(d.date, 15);
    assert_eq!(d.format(), "2024/03/15");
}

#[test]
fn unpadded_date_is_still_valid_but_pads_on_the_way_out() {
    assert!(Date::is_valid("2024/3/15"));
    let d = Date::parse("2024/3/15").expect("structurally valid");
    assert_eq!(d.format(), "2024/03/15");
}

#[test]
fn structurally_broken_dates_are_rejected() {
    assert!(!Date::is_valid(""));
    assert!(!Date::is_valid("2024-03-15"));
    assert!(!Date::is_valid("2024/03"));
    assert!(!Date::is_valid("2024/03/15/1"));
    assert!(!Date::is_valid("a/b/c"));
    assert!(!Date::is_valid("2024//15"));
    assert!(!Date::is_valid("99999999999/1/1"));
    assert!(Date::parse("2024/03").is_none());
}

#[test]
fn month_codes_round_trip() {
    assert_eq!(Month::from_code(3), Month::Mar);
    assert_eq!(Month::Mar.to_code(), 3);
    for c in 1..=12u32 {
        assert_eq!(Month::from_code(c).to_code(), c);
    }
    assert_eq!(Month::from_code(0), Month::Unknown);
    assert_eq!(Month::from_code(13), Month::Unknown);
}

#[test]
fn out_of_range_month_formats_as_zero() {
    let d = Date::parse("2024/13/01").expect("structurally valid");
    assert_eq!(d.month, Month::Unknown);
    assert_eq!(d.format(), "2024/00/01");
}

#[test]
fn act_codes_round_trip_with_default_fallback() {
    assert_eq!(Act::Main.to_code(), 0);
    assert_eq!(Act::Support.to_code(), 1);
    assert_eq!(Act::Shared.to_code(), 2);
    assert_eq!(Act::from_code(0), Act::Main);
    assert_eq!(Act::from_code(1), Act::Support);
    assert_eq!(Act::from_code(2), Act::Shared);
    assert_eq!(Act::from_code(7), Act::Main);
    assert_eq!(Act::from_code(-1), Act::Main);
}

#[test]
fn act_cycling_saturates_at_both_ends() {
    assert_eq!(Act::Main.next(), Act::Support);
    assert_eq!(Act::Support.next(), Act::Shared);
    assert_eq!(Act::Shared.next(), Act::Shared);
    assert_eq!(Act::Main.prev(), Act::Main);
    assert_eq!(Act::Shared.prev(), Act::Support);
}

#[test]
fn act_labels() {
    assert_eq!(Act::Main.label(), "Main Act");
    assert_eq!(Act::Support.label(), "Support Act");
    assert_eq!(Act::Shared.label(), "Shared Headliner");
}
