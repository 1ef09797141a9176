use gig_tracker::artist::Artist;
use gig_tracker::city::City;
use gig_tracker::digits::{parse_u32, u32_to_dec, u32_to_dec_pad};
use gig_tracker::record::Record;
use gig_tracker::text::{chars_contain, chars_le, chars_of, copy_range, string_from_chars};

fn cv(s: &str) -> Vec<char> {
    s.chars().collect()
}

#[test]
fn chars_of_round_trips_through_string() {
    let v = chars_of("hej värld");
    assert_eq!(v, cv("hej värld"));
    assert_eq!(string_from_chars(&v), "hej värld".to_string());
}

#[test]
fn substring_search_finds_inner_needle() {
    assert!(chars_contain(&cv("the quick fox"), &cv("quick")));
    assert!(chars_contain(&cv("aaa"), &cv("aa")));
    assert!(!chars_contain(&cv("the quick fox"), &cv("slow")));
    assert!(!chars_contain(&cv("ab"), &cv("abc")));
}

#[test]
fn empty_needle_always_matches() {
    assert!(chars_contain(&cv(""), &cv("")));
    assert!(chars_contain(&cv("anything"), &cv("")));
}

#[test]
fn lexicographic_order_on_names() {
    assert!(chars_le(&cv("Abba"), &cv("Beatles")));
    assert!(!chars_le(&cv("Beatles"), &cv("Abba")));
    assert!(chars_le(&cv("Abba"), &cv("Abba")));
    assert!(chars_le(&cv("Ab"), &cv("Abba")));
    assert!(!chars_le(&cv("Abba"), &cv("Ab")));
}

#[test]
fn parse_u32_reads_plain_and_signed_numbers() {
    assert_eq!(parse_u32(&cv("123")), Some(123));
    assert_eq!(parse_u32(&cv("+12")), Some(12));
    assert_eq!(parse_u32(&cv("0")), Some(0));
    assert_eq!(parse_u32(&cv("4294967295")), Some(u32::MAX));
}

#[test]
fn parse_u32_rejects_garbage_and_overflow() {
    assert_eq!(parse_u32(&cv("")), None);
    assert_eq!(parse_u32(&cv("+")), None);
    assert_eq!(parse_u32(&cv("12a")), None);
    assert_eq!(parse_u32(&cv("-5")), None);
    assert_eq!(parse_u32(&cv("4294967296")), None);
}

#[test]
fn decimal_formatting_pads_with_zeros() {
    assert_eq!(string_from_chars(&u32_to_dec(0)), "0");
    assert_eq!(string_from_chars(&u32_to_dec(907)), "907");
    assert_eq!(string_from_chars(&u32_to_dec_pad(5, 2)), "05");
    assert_eq!(string_from_chars(&u32_to_dec_pad(2024, 4)), "2024");
    assert_eq!(string_from_chars(&u32_to_dec_pad(123, 2)), "123");
}

#[test]
fn copy_range_slices_characters() {
    assert_eq!(copy_range(&cv("abcdef"), 1, 4), cv("bcd"));
    assert_eq!(copy_range(&cv("abc"), 0, 0), cv(""));
}

#[test]
fn artist_search_is_case_insensitive() {
    let a = Artist::new("ROCK Band".to_string(), 1);
    assert!(a.contains(&cv("rock")));
    let b = Artist::new("quiet trio".to_string(), 1);
    assert!(b.contains(&cv("QUIET")));
    assert!(!b.contains(&cv("loud")));
}

#[test]
fn artist_search_covers_joined_city_name() {
    let mut a = Artist::new("Band".to_string(), 1);
    a.city_name = Some("Lisbon".to_string());
    assert!(a.contains(&cv("lisb")));
    assert!(!a.contains(&cv("porto")));
}

#[test]
fn city_search_is_case_sensitive() {
    let c = City::new("Austin".to_string());
    assert!(c.contains(&cv("Aus")));
    assert!(!c.contains(&cv("aus")));
    assert!(c.contains(&cv("")));
}
