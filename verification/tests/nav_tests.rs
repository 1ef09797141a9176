use gig_tracker::nav::{Column, FocusedApp, TableName};

#[test]
fn table_cycle_wraps_forward_from_the_last_table() {
    assert_eq!(TableName::Artist.next(), TableName::Venue);
    assert_eq!(TableName::Venue.next(), TableName::Gig);
    assert_eq!(TableName::Gig.next(), TableName::City);
    assert_eq!(TableName::City.next(), TableName::Artist);
}

#[test]
fn table_cycle_wraps_backward_from_the_first_table() {
    assert_eq!(TableName::Artist.prev(), TableName::City);
    assert_eq!(TableName::City.prev(), TableName::Gig);
    assert_eq!(TableName::Gig.prev(), TableName::Venue);
    assert_eq!(TableName::Venue.prev(), TableName::Artist);
}

#[test]
fn table_cycle_moves_invert_each_other() {
    for t in [
        TableName::Artist,
        TableName::Venue,
        TableName::Gig,
        TableName::City,
    ] {
        assert_eq!(t.next().prev(), t);
        assert_eq!(t.prev().next(), t);
    }
}

#[test]
fn stacked_apps_wrap_both_ways() {
    assert_eq!(FocusedApp::Gigs.down(), FocusedApp::Artists);
    assert_eq!(FocusedApp::Artists.up(), FocusedApp::Gigs);
    assert_eq!(FocusedApp::Artists.down(), FocusedApp::Venues);
    assert_eq!(FocusedApp::Venues.up(), FocusedApp::Artists);
}

#[test]
fn column_moves_between_the_three_columns() {
    let c = Column::Left(FocusedApp::Artists);
    assert_eq!(c.right(), Column::Middle(0));
    assert_eq!(Column::Middle(0).right(), Column::Right(0));
    assert_eq!(Column::Right(0).right(), Column::Right(0));
    assert_eq!(Column::Right(1).left(), Column::Middle(1));
    assert_eq!(Column::Middle(1).left(), Column::Left(FocusedApp::Artists));
    assert_eq!(
        Column::Left(FocusedApp::Gigs).left(),
        Column::Left(FocusedApp::Gigs)
    );
}

#[test]
fn column_rows_saturate_while_the_left_tables_cycle() {
    assert_eq!(Column::Middle(0).up(), Column::Middle(1));
    assert_eq!(Column::Middle(1).up(), Column::Middle(1));
    assert_eq!(Column::Middle(1).down(), Column::Middle(0));
    assert_eq!(Column::Middle(0).down(), Column::Middle(0));
    assert_eq!(
        Column::Left(FocusedApp::Gigs).down(),
        Column::Left(FocusedApp::Artists)
    );
}
