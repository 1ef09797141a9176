use gig_tracker::city::City;
use gig_tracker::datatable::DataTable;
use gig_tracker::events::{Key, KeyEvent};
use gig_tracker::listinput::ListInput;

fn city(id: i64, name: &str) -> City {
    City {
        city_id: id,
        name: name.to_string(),
    }
}

fn cities() -> Vec<City> {
    vec![
        city(1, "Oslo"),
        city(2, "Austin"),
        city(3, "Lima"),
        city(4, "Limerick"),
    ]
}

fn press(t: &mut DataTable<City>, k: Key) {
    t.handle_key(KeyEvent::plain(k));
}

fn type_search(t: &mut DataTable<City>, s: &str) {
    press(t, Key::Char('/'));
    for c in s.chars() {
        press(t, Key::Char(c));
    }
}

#[test]
fn table_sorts_on_construction() {
    let t = DataTable::new("City", cities());
    let names: Vec<String> = t.data.iter().map(|c| c.name.clone()).collect();
    assert_eq!(names, vec!["Austin", "Lima", "Limerick", "Oslo"]);
    assert_eq!(t.filtered, vec![0, 1, 2, 3]);
}

#[test]
fn filtering_shows_exactly_the_matching_subset_in_order() {
    let mut t = DataTable::new("City", cities());
    type_search(&mut t, "Lim");
    let shown: Vec<String> = t
        .filtered
        .iter()
        .map(|&i| t.data[i].name.clone())
        .collect();
    assert_eq!(shown, vec!["Lima", "Limerick"]);
}

#[test]
fn clearing_the_search_restores_the_full_sorted_view() {
    let mut t = DataTable::new("City", cities());
    type_search(&mut t, "Osl");
    assert_eq!(t.filtered.len(), 1);
    press(&mut t, Key::Esc);
    assert_eq!(t.search.len(), 0);
    assert!(!t.searching);
    assert_eq!(t.filtered, vec![0, 1, 2, 3]);
    let names: Vec<String> = t.data.iter().map(|c| c.name.clone()).collect();
    assert_eq!(names, vec!["Austin", "Lima", "Limerick", "Oslo"]);
}

#[test]
fn backspace_widens_the_search_again() {
    let mut t = DataTable::new("City", cities());
    type_search(&mut t, "Lima");
    assert_eq!(t.filtered.len(), 1);
    press(&mut t, Key::Backspace);
    assert_eq!(t.filtered.len(), 2);
}

#[test]
fn enter_leaves_search_mode_but_keeps_the_query() {
    let mut t = DataTable::new("City", cities());
    type_search(&mut t, "Lim");
    press(&mut t, Key::Enter);
    assert!(!t.searching);
    let q: String = t.search.iter().collect();
    assert_eq!(q, "Lim");
    assert_eq!(t.filtered.len(), 2);
}

#[test]
fn cursor_clamps_at_both_ends_without_wrapping() {
    let mut t = DataTable::new("City", cities());
    press(&mut t, Key::Char('k'));
    assert_eq!(t.cursor, 0);
    press(&mut t, Key::Char('j'));
    press(&mut t, Key::Char('j'));
    press(&mut t, Key::Char('j'));
    assert_eq!(t.cursor, 3);
    press(&mut t, Key::Char('j'));
    assert_eq!(t.cursor, 3);
    press(&mut t, Key::Char('k'));
    assert_eq!(t.cursor, 2);
}

#[test]
fn focus_never_moves_the_selection() {
    let mut t = DataTable::new("City", cities());
    press(&mut t, Key::Char('j'));
    let before = t.cursor;
    t.focus();
    assert!(t.focused);
    assert_eq!(t.cursor, before);
    t.unfocus();
    assert!(!t.focused);
    assert_eq!(t.cursor, before);
}

#[test]
fn control_keys_leave_the_table_alone() {
    let mut t = DataTable::new("City", cities());
    t.handle_key(KeyEvent::with_ctrl(Key::Char('j')));
    assert_eq!(t.cursor, 0);
    assert_eq!(t.search.len(), 0);
}

#[test]
fn reload_keeps_the_search_and_reapplies_it() {
    let mut t = DataTable::new("City", cities());
    type_search(&mut t, "Lim");
    let mut more = cities();
    more.push(city(5, "Limoges"));
    t.reload_data(more);
    let shown: Vec<String> = t
        .filtered
        .iter()
        .map(|&i| t.data[i].name.clone())
        .collect();
    assert_eq!(shown, vec!["Lima", "Limerick", "Limoges"]);
}

#[test]
fn selected_returns_the_row_under_the_cursor() {
    let mut t = DataTable::new("City", cities());
    press(&mut t, Key::Char('j'));
    assert_eq!(t.selected().expect("non-empty view").name, "Lima");
    type_search(&mut t, "zzz");
    assert!(t.selected().is_none());
}

#[test]
fn picker_commits_only_on_enter_or_cursor_moves() {
    let mut p: ListInput<City> = ListInput::new("City", cities());
    assert!(p.get_value().is_none());
    p.handle_key(KeyEvent::plain(Key::Char('j')));
    assert_eq!(p.get_value().expect("tracked").name, "Lima");
    p.handle_key(KeyEvent::plain(Key::Enter));
    assert_eq!(p.get_value().expect("committed").name, "Lima");
}

#[test]
fn picker_selection_survives_a_filter_change() {
    let mut p: ListInput<City> = ListInput::new("City", cities());
    p.handle_key(KeyEvent::plain(Key::Char('j')));
    p.handle_key(KeyEvent::plain(Key::Enter));
    p.handle_key(KeyEvent::plain(Key::Char('/')));
    p.handle_key(KeyEvent::plain(Key::Char('O')));
    assert_eq!(p.get_value().expect("still committed").name, "Lima");
}

#[test]
fn picker_escape_inside_search_clears_it_outside_reports_it() {
    let mut p: ListInput<City> = ListInput::new("City", cities());
    p.handle_key(KeyEvent::plain(Key::Char('/')));
    p.handle_key(KeyEvent::plain(Key::Char('O')));
    let r = p.handle_key(KeyEvent::plain(Key::Esc));
    assert!(r.is_none());
    assert_eq!(p.search.len(), 0);
    let r2 = p.handle_key(KeyEvent::plain(Key::Esc));
    assert!(matches!(
        r2,
        Some(gig_tracker::listinput::ListInputEvent::Escape)
    ));
}
