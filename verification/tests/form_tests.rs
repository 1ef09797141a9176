use gig_tracker::artistform::{ArtistForm, Field};
use gig_tracker::avfield::AvField;
use gig_tracker::city::City;
use gig_tracker::cityform::{CityField, CityForm};
use gig_tracker::events::{Key, KeyEvent};
use gig_tracker::act::Act;
use gig_tracker::artist::Artist;
use gig_tracker::date::Month;
use gig_tracker::gigform::{GigField, GigForm};
use gig_tracker::venue::Venue;

fn city(id: i64, name: &str) -> City {
    City {
        city_id: id,
        name: name.to_string(),
    }
}

#[test]
fn artist_field_chain_visits_each_field_once_and_saturates() {
    let mut f = Field::Idle;
    let mut seen = vec![f];
    for _ in 0..4 {
        f = f.next();
        seen.push(f);
    }
    assert_eq!(
        seen,
        vec![Field::Idle, Field::Name, Field::City, Field::Save, Field::Save]
    );
    let mut b = Field::Save;
    let mut back = vec![b];
    for _ in 0..4 {
        b = b.prev();
        back.push(b);
    }
    assert_eq!(
        back,
        vec![Field::Save, Field::City, Field::Name, Field::Idle, Field::Idle]
    );
}

#[test]
fn venue_and_city_and_gig_field_chains_mirror_their_declared_order() {
    assert_eq!(AvField::Idle.next(), AvField::Name);
    assert_eq!(AvField::Save.next(), AvField::Save);
    assert_eq!(AvField::Idle.prev(), AvField::Idle);
    assert_eq!(CityField::Idle.next(), CityField::Name);
    assert_eq!(CityField::Name.next(), CityField::Save);
    assert_eq!(CityField::Save.prev(), CityField::Name);
    assert_eq!(GigField::Idle.next(), GigField::Artist);
    assert_eq!(GigField::Artist.next(), GigField::Venue);
    assert_eq!(GigField::Venue.next(), GigField::Date);
    assert_eq!(GigField::Date.next(), GigField::Act);
    assert_eq!(GigField::Act.next(), GigField::Save);
    assert_eq!(GigField::Save.next(), GigField::Save);
    assert_eq!(GigField::Save.prev(), GigField::Act);
}

fn plain(k: Key) -> KeyEvent {
    KeyEvent::plain(k)
}

fn ctrl(k: Key) -> KeyEvent {
    KeyEvent::with_ctrl(k)
}

fn type_str(f: &mut CityForm, s: &str) {
    for c in s.chars() {
        f.handle_key(plain(Key::Char(c)));
    }
}

#[test]
fn city_form_submits_its_entered_name() {
    let mut f = CityForm::new();
    assert!(f.handle_key(plain(Key::Enter)).is_none());
    assert_eq!(f.current_field, CityField::Name);
    type_str(&mut f, "Austin");
    assert!(f.handle_key(plain(Key::Enter)).is_none());
    assert_eq!(f.current_field, CityField::Save);
    let saved = f.handle_key(plain(Key::Enter)).expect("a persist request");
    assert_eq!(saved.name, "Austin");
    assert_eq!(saved.city_id, 0);
}

#[test]
fn city_form_rejects_an_empty_name_locally() {
    let mut f = CityForm::new();
    f.handle_key(plain(Key::Enter));
    f.handle_key(ctrl(Key::Char('j')));
    assert_eq!(f.current_field, CityField::Save);
    let r = f.handle_key(plain(Key::Enter));
    assert!(r.is_none());
    assert_eq!(
        f.name.error.as_deref(),
        Some("Field \"Name\" cannot be empty")
    );
}

fn artist_form_with_city_selected() -> ArtistForm {
    let mut f = ArtistForm::new(vec![city(7, "Austin"), city(8, "Boston")]);
    f.handle_key(plain(Key::Enter));
    // skip the name, pick the first city
    f.handle_key(ctrl(Key::Char('j')));
    f.handle_key(plain(Key::Enter));
    assert_eq!(f.current_field, Field::Save);
    f
}

#[test]
fn artist_form_empty_name_gets_a_field_local_error_and_no_save() {
    let mut f = artist_form_with_city_selected();
    let committed_before = f.city.committed;
    assert!(committed_before.is_some());
    let r = f.handle_key(plain(Key::Enter));
    assert!(r.is_none());
    assert_eq!(
        f.name.error.as_deref(),
        Some("Field \"Name\" cannot be empty")
    );
    // the city selection stays intact
    assert_eq!(f.city.committed, committed_before);
    assert!(f.save.error.is_none());
}

#[test]
fn artist_form_submits_name_and_picked_city() {
    let mut f = ArtistForm::new(vec![city(7, "Austin"), city(8, "Boston")]);
    f.handle_key(plain(Key::Enter));
    for c in "Trio".chars() {
        f.handle_key(plain(Key::Char(c)));
    }
    f.handle_key(plain(Key::Enter));
    // cursor starts on Austin; commit it
    f.handle_key(plain(Key::Enter));
    assert_eq!(f.current_field, Field::Save);
    let a = f.handle_key(plain(Key::Enter)).expect("a persist request");
    assert_eq!(a.name, "Trio");
    assert_eq!(a.city_id, 7);
    assert_eq!(a.artist_id, 0);
    assert!(a.city_name.is_none());
}

#[test]
fn gig_form_reports_a_structurally_invalid_date() {
    let artists = vec![Artist::new("A".to_string(), 1)];
    let venues = vec![Venue::new("V".to_string(), 1)];
    let mut f = GigForm::new(artists, venues);
    f.handle_key(plain(Key::Enter));
    f.handle_key(plain(Key::Enter)); // commit first artist
    f.handle_key(plain(Key::Enter)); // commit first venue
    assert_eq!(f.current_field, GigField::Date);
    for c in "2024-01-01".chars() {
        f.handle_key(plain(Key::Char(c)));
    }
    f.handle_key(plain(Key::Enter)); // to act picker
    f.handle_key(plain(Key::Enter)); // commit Main act
    assert_eq!(f.current_field, GigField::Save);
    let r = f.handle_key(plain(Key::Enter));
    assert!(r.is_none());
    assert_eq!(f.date_input.error.as_deref(), Some("Invalid Date Format"));
}

#[test]
fn gig_form_submits_a_fully_filled_gig() {
    let mut a = Artist::new("A".to_string(), 1);
    a.artist_id = 41;
    let mut v = Venue::new("V".to_string(), 1);
    v.venue_id = 51;
    let mut f = GigForm::new(vec![a], vec![v]);
    f.handle_key(plain(Key::Enter));
    f.handle_key(plain(Key::Enter));
    f.handle_key(plain(Key::Enter));
    for c in "2024/3/15".chars() {
        f.handle_key(plain(Key::Char(c)));
    }
    f.handle_key(plain(Key::Enter));
    f.handle_key(plain(Key::Char('j'))); // Support act
    f.handle_key(plain(Key::Enter));
    let g = f.handle_key(plain(Key::Enter)).expect("a persist request");
    assert_eq!(g.artist_id, 41);
    assert_eq!(g.venue_id, 51);
    assert_eq!(g.date.year, 2024);
    assert_eq!(g.date.month, Month::Mar);
    assert_eq!(g.date.date, 15);
    assert_eq!(g.act, Act::Support);
}

#[test]
fn escape_in_a_field_unfocuses_but_keeps_the_entry() {
    let mut f = CityForm::new();
    f.handle_key(plain(Key::Enter));
    type_str(&mut f, "Oslo");
    f.handle_key(plain(Key::Esc));
    assert_eq!(f.current_field, CityField::Name);
    assert!(!f.name.focused);
    let s: String = f.name.value.iter().collect();
    assert_eq!(s, "Oslo");
}
