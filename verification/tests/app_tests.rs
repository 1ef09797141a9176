use gig_tracker::act::Act;
use gig_tracker::appstate::{App, AppAction};
use gig_tracker::artist::Artist;
use gig_tracker::city::City;
use gig_tracker::datacolumn::DataColumn;
use gig_tracker::date::{Date, Month};
use gig_tracker::error::db_error_message;
use gig_tracker::events::{Key, KeyEvent};
use gig_tracker::form::{Form, FormTabs, SaveRequest};
use gig_tracker::gig::Gig;
use gig_tracker::graph::GraphColumn;
use gig_tracker::nav::{ColumnName, TableName};
use gig_tracker::venue::Venue;

fn city(id: i64, name: &str) -> City {
    City {
        city_id: id,
        name: name.to_string(),
    }
}

fn cities() -> Vec<City> {
    vec![city(1, "Boston"), city(2, "Chicago")]
}

fn plain(k: Key) -> KeyEvent {
    KeyEvent::plain(k)
}

fn ctrl(k: Key) -> KeyEvent {
    KeyEvent::with_ctrl(k)
}

fn fresh_app() -> App {
    App::new(
        vec![Artist::new("A".to_string(), 1)],
        vec![Venue::new("V".to_string(), 1)],
        vec![],
        cities(),
        vec![],
        cities(),
        cities(),
        vec![Artist::new("A".to_string(), 1)],
        vec![Venue::new("V".to_string(), 1)],
    )
}

#[test]
fn control_c_quits() {
    let mut app = fresh_app();
    assert!(matches!(app.handle_key(ctrl(Key::Char('c'))), AppAction::Quit));
}

#[test]
fn plus_opens_the_overlay_and_escape_closes_it_with_a_reload() {
    let mut app = fresh_app();
    assert!(!app.render_form);
    assert!(matches!(
        app.handle_key(plain(Key::Char('+'))),
        AppAction::Continue
    ));
    assert!(app.render_form);
    assert!(matches!(app.handle_key(plain(Key::Esc)), AppAction::Reload));
    assert!(!app.render_form);
}

#[test]
fn column_moves_switch_focus_between_data_and_graph() {
    let mut app = fresh_app();
    assert_eq!(app.focused_column, ColumnName::Data);
    app.handle_key(plain(Key::Char('L')));
    assert_eq!(app.focused_column, ColumnName::Graph);
    assert!(app.graph_column.is_focused);
    assert!(!app.data_column.is_focused);
    app.handle_key(plain(Key::Char('H')));
    assert_eq!(app.focused_column, ColumnName::Data);
    assert!(app.data_column.is_focused);
    assert!(!app.graph_column.is_focused);
}

#[test]
fn a_submitted_city_comes_back_as_a_persist_request() {
    let mut app = fresh_app();
    app.handle_key(plain(Key::Char('+')));
    // move to the city tab
    app.handle_key(ctrl(Key::Char('l')));
    app.handle_key(ctrl(Key::Char('l')));
    app.handle_key(ctrl(Key::Char('l')));
    assert_eq!(app.form.current_tab, FormTabs::City);
    app.handle_key(plain(Key::Enter));
    for c in "Austin".chars() {
        app.handle_key(plain(Key::Char(c)));
    }
    app.handle_key(plain(Key::Enter));
    let action = app.handle_key(plain(Key::Enter));
    match action {
        AppAction::Persist(SaveRequest::City(c)) => {
            assert_eq!(c.name, "Austin");
            assert_eq!(c.city_id, 0);
        },
        _ => panic!("expected a persist request for the new city"),
    }
    app.close_form();
    assert!(!app.render_form);
}

#[test]
fn a_created_city_appears_sorted_in_the_artist_city_picker_after_reload() {
    // the reload after a successful save rebuilds the overlay from fresh
    // loads that now include the new record
    let mut after_reload = cities();
    after_reload.push(city(3, "Austin"));
    let form = Form::new(
        after_reload.clone(),
        after_reload,
        vec![],
        vec![],
    );
    let names: Vec<String> = form
        .artist_form
        .city
        .values
        .iter()
        .map(|c| c.name.clone())
        .collect();
    assert_eq!(names, vec!["Austin", "Boston", "Chicago"]);
}

#[test]
fn table_switch_chords_cycle_inside_the_data_column() {
    let mut app = fresh_app();
    assert_eq!(app.data_column.focused_app, TableName::Artist);
    app.handle_key(ctrl(Key::Char('j')));
    assert_eq!(app.data_column.focused_app, TableName::Venue);
    app.handle_key(ctrl(Key::Char('k')));
    app.handle_key(ctrl(Key::Char('k')));
    assert_eq!(app.data_column.focused_app, TableName::City);
    app.handle_key(ctrl(Key::Char('j')));
    assert_eq!(app.data_column.focused_app, TableName::Artist);
}

#[test]
fn keys_reach_the_focused_table_when_the_overlay_is_closed() {
    let mut app = fresh_app();
    app.handle_key(plain(Key::Char('/')));
    assert!(app.data_column.artist_table.searching);
    app.handle_key(plain(Key::Char('z')));
    let q: String = app.data_column.artist_table.search.iter().collect();
    assert_eq!(q, "z");
}

#[test]
fn failed_save_lands_on_the_submitting_form() {
    let mut app = fresh_app();
    app.handle_key(plain(Key::Char('+')));
    app.form.save_failed("Unique Constraint Violated".to_string());
    assert_eq!(
        app.form.artist_form.save.error.as_deref(),
        Some("Unique Constraint Violated")
    );
}

#[test]
fn data_column_reload_replaces_every_table() {
    let mut col = DataColumn::new(vec![], vec![], vec![], vec![]);
    assert_eq!(col.city_table.data.len(), 0);
    col.reload_data(
        vec![Artist::new("A".to_string(), 1)],
        vec![],
        vec![],
        cities(),
    );
    assert_eq!(col.artist_table.data.len(), 1);
    assert_eq!(col.city_table.data.len(), 2);
    assert_eq!(col.focused_app, TableName::Artist);
}

fn gig_in_month(m: u32) -> Gig {
    Gig::new(
        1,
        1,
        Date {
            year: 2024,
            month: Month::from_code(m),
            date: 1,
        },
        Act::Main,
    )
}

#[test]
fn the_chart_counts_gigs_per_month() {
    let g = GraphColumn::new(vec![
        gig_in_month(3),
        gig_in_month(3),
        gig_in_month(12),
        gig_in_month(1),
    ]);
    let counts = g.month_counts();
    assert_eq!(counts.len(), 12);
    assert_eq!(counts[0], 1);
    assert_eq!(counts[2], 2);
    assert_eq!(counts[11], 1);
    assert_eq!(counts[5], 0);
}

#[test]
fn constraint_violations_get_their_fixed_messages() {
    assert_eq!(
        db_error_message(true, false, "raw".to_string()),
        "Unique Constraint Violated"
    );
    assert_eq!(
        db_error_message(false, true, "raw".to_string()),
        "Foreign Key Constraint Violated"
    );
    assert_eq!(db_error_message(false, false, "raw".to_string()), "raw");
}

#[test]
fn form_tab_chords_saturate_at_the_ends() {
    let mut f = Form::new(vec![], vec![], vec![], vec![]);
    assert_eq!(f.current_tab, FormTabs::Artist);
    f.handle_key(ctrl(Key::Char('h')));
    assert_eq!(f.current_tab, FormTabs::Artist);
    for _ in 0..5 {
        f.handle_key(ctrl(Key::Char('l')));
    }
    assert_eq!(f.current_tab, FormTabs::City);
}
