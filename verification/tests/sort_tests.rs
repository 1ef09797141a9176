use gig_tracker::act::Act;
use gig_tracker::artist::Artist;
use gig_tracker::city::City;
use gig_tracker::date::{Date, Month};
use gig_tracker::gig::Gig;
use gig_tracker::sort::sort_records;

fn city(id: i64, name: &str) -> City {
    City {
        city_id: id,
        name: name.to_string(),
    }
}

#[test]
fn cities_sort_by_name() {
    let mut v = vec![city(1, "Oslo"), city(2, "Austin"), city(3, "Lima")];
    sort_records(&mut v);
    let names: Vec<String> = v.iter().map(|c| c.name.clone()).collect();
    assert_eq!(names, vec!["Austin", "Lima", "Oslo"]);
}

#[test]
fn equal_keys_keep_their_loaded_order() {
    let mut v = vec![
        city(10, "Springfield"),
        city(20, "Athens"),
        city(11, "Springfield"),
        city(12, "Springfield"),
    ];
    sort_records(&mut v);
    let ids: Vec<i64> = v.iter().map(|c| c.city_id).collect();
    assert_eq!(ids, vec![20, 10, 11, 12]);
}

#[test]
fn artists_sort_by_name_keeping_ties_stable() {
    let mut v = vec![
        Artist::new("Zoo".to_string(), 1),
        Artist::new("Arc".to_string(), 2),
        Artist::new("Arc".to_string(), 3),
    ];
    sort_records(&mut v);
    assert_eq!(v[0].name, "Arc");
    assert_eq!(v[0].city_id, 2);
    assert_eq!(v[1].name, "Arc");
    assert_eq!(v[1].city_id, 3);
    assert_eq!(v[2].name, "Zoo");
}

fn gig_on(y: u32, m: u32, d: u32, artist_id: i64) -> Gig {
    Gig::new(
        artist_id,
        1,
        Date {
            year: y,
            month: Month::from_code(m),
            date: d,
        },
        Act::Main,
    )
}

#[test]
fn gigs_sort_by_date_ascending() {
    let mut v = vec![
        gig_on(2024, 5, 1, 1),
        gig_on(2023, 12, 31, 2),
        gig_on(2024, 4, 30, 3),
        gig_on(2024, 5, 1, 4),
    ];
    sort_records(&mut v);
    let ids: Vec<i64> = v.iter().map(|g| g.artist_id).collect();
    assert_eq!(ids, vec![2, 3, 1, 4]);
}

#[test]
fn sorting_an_empty_or_single_list_is_a_no_op() {
    let mut v: Vec<City> = vec![];
    sort_records(&mut v);
    assert!(v.is_empty());
    let mut w = vec![city(1, "Solo")];
    sort_records(&mut w);
    assert_eq!(w.len(), 1);
    assert_eq!(w[0].name, "Solo");
}
