use vstd::prelude::*;

verus! {

// ---------------------------------------------------------------------------
// Top-level focus state: which column of the layout owns input, and which
// entity table inside the data column. Table navigation wraps cyclically —
// unlike the form field chain, the table cycle has no terminal state.
// ---------------------------------------------------------------------------

/// The three stacked entity tables of the compact layout.
#[derive(Clone, Copy, Debug, Hash, PartialEq, Eq, Structural)]
pub enum FocusedApp {
    Artists,
    Venues,
    Gigs,
}

pub open spec fn app_index(a: FocusedApp) -> int {
    match a {
        FocusedApp::Artists => 0,
        FocusedApp::Venues => 1,
        FocusedApp::Gigs => 2,
    }
}

pub open spec fn app_down(a: FocusedApp) -> FocusedApp {
    match a {
        FocusedApp::Artists => FocusedApp::Venues,
        FocusedApp::Venues => FocusedApp::Gigs,
        FocusedApp::Gigs => FocusedApp::Artists,
    }
}

pub open spec fn app_up(a: FocusedApp) -> FocusedApp {
    match a {
        FocusedApp::Artists => FocusedApp::Gigs,
        FocusedApp::Venues => FocusedApp::Artists,
        FocusedApp::Gigs => FocusedApp::Venues,
    }
}

impl FocusedApp {
    /// The table below, wrapping from the last back to the first.
    pub fn down(&self) -> (r: Self)
        ensures
            r == app_down(*self),
    {
        match self {
            FocusedApp::Artists => FocusedApp::Venues,
            FocusedApp::Venues => FocusedApp::Gigs,
            FocusedApp::Gigs => FocusedApp::Artists,
        }
    }

    /// The table above, wrapping from the first back to the last.
    pub fn up(&self) -> (r: Self)
        ensures
            r == app_up(*self),
    {
        match self {
            FocusedApp::Artists => FocusedApp::Gigs,
            FocusedApp::Venues => FocusedApp::Artists,
            FocusedApp::Gigs => FocusedApp::Venues,
        }
    }
}

/// Cyclic wrap of the stacked tables: stepping down adds one modulo the
/// count, stepping up subtracts one, and the two moves invert each other.
pub proof fn lemma_focused_app_cycle()
    ensures
        forall|a: FocusedApp| app_index(#[trigger] app_down(a)) == (app_index(a) + 1) % 3,
        forall|a: FocusedApp| app_index(#[trigger] app_up(a)) == (app_index(a) + 2) % 3,
        forall|a: FocusedApp| app_up(#[trigger] app_down(a)) == a,
        forall|a: FocusedApp| app_down(#[trigger] app_up(a)) == a,
{
}

/// The named entity tables of the data column.
#[derive(Clone, Copy, Debug, Hash, PartialEq, Eq, Structural)]
pub enum TableName {
    Artist,
    Gig,
    Venue,
    City,
}

pub open spec fn table_index(t: TableName) -> int {
    match t {
        TableName::Artist => 0,
        TableName::Venue => 1,
        TableName::Gig => 2,
        TableName::City => 3,
    }
}

pub open spec fn table_next(t: TableName) -> TableName {
    match t {
        TableName::Artist => TableName::Venue,
        TableName::Venue => TableName::Gig,
        TableName::Gig => TableName::City,
        TableName::City => TableName::Artist,
    }
}

pub open spec fn table_prev(t: TableName) -> TableName {
    match t {
        TableName::Artist => TableName::City,
        TableName::Venue => TableName::Artist,
        TableName::Gig => TableName::Venue,
        TableName::City => TableName::Gig,
    }
}

impl TableName {
    /// The next entity table, wrapping from the last back to the first.
    pub fn next(&self) -> (r: Self)
        ensures
            r == table_next(*self),
    {
        match self {
            TableName::Artist => TableName::Venue,
            TableName::Venue => TableName::Gig,
            TableName::Gig => TableName::City,
            TableName::City => TableName::Artist,
        }
    }

    /// The previous entity table, wrapping from the first back to the last.
    pub fn prev(&self) -> (r: Self)
        ensures
            r == table_prev(*self),
    {
        match self {
            TableName::Artist => TableName::City,
            TableName::Venue => TableName::Artist,
            TableName::Gig => TableName::Venue,
            TableName::City => TableName::Gig,
        }
    }
}

/// Cyclic wrap of the entity tables: from the last, "next" returns to the
/// first; from the first, "prev" returns to the last; the moves invert
/// each other.
pub proof fn lemma_table_cycle()
    ensures
        forall|t: TableName| table_index(#[trigger] table_next(t)) == (table_index(t) + 1) % 4,
        forall|t: TableName| table_index(#[trigger] table_prev(t)) == (table_index(t) + 3) % 4,
        forall|t: TableName| table_prev(#[trigger] table_next(t)) == t,
        forall|t: TableName| table_next(#[trigger] table_prev(t)) == t,
{
}

/// The two top-level columns of the wide layout.
#[derive(Clone, Copy, Debug, PartialEq, Eq, Structural)]
pub enum ColumnName {
    Data,
    Graph,
}

/// Focus position in the three-column layout: the left column holds the
/// stacked entity tables; the middle and right columns each hold two rows.
#[derive(Clone, Copy, Debug, PartialEq, Eq, Structural)]
pub enum Column {
    Left(FocusedApp),
    Middle(u8),
    Right(u8),
}

impl Column {
    /// Moves focus up: within the left column the table cycle wraps; in the
    /// other columns the row index saturates at its upper bound.
    pub fn up(&self) -> (r: Self)
        ensures
            r == match *self {
                Column::Left(a) => Column::Left(app_up(a)),
                Column::Middle(c) => Column::Middle((if c < 1 { c + 1 } else { 1 }) as u8),
                Column::Right(c) => Column::Right((if c < 1 { c + 1 } else { 1 }) as u8),
            },
    {
        match self {
            Column::Left(a) => Column::Left(a.up()),
            Column::Middle(c) => Column::Middle(if *c < 1 { *c + 1 } else { 1 }),
            Column::Right(c) => Column::Right(if *c < 1 { *c + 1 } else { 1 }),
        }
    }

    /// Moves focus down: within the left column the table cycle wraps; in
    /// the other columns the row index saturates at zero.
    pub fn down(&self) -> (r: Self)
        ensures
            r == match *self {
                Column::Left(a) => Column::Left(app_down(a)),
                Column::Middle(c) => Column::Middle((if c > 0 { c - 1 } else { 0 }) as u8),
                Column::Right(c) => Column::Right((if c > 0 { c - 1 } else { 0 }) as u8),
            },
    {
        match self {
            Column::Left(a) => Column::Left(a.down()),
            Column::Middle(c) => Column::Middle(if *c > 0 { *c - 1 } else { 0 }),
            Column::Right(c) => Column::Right(if *c > 0 { *c - 1 } else { 0 }),
        }
    }

    /// Moves focus one column to the left; from the left column it stays.
    pub fn left(&self) -> (r: Self)
        ensures
            r == match *self {
                Column::Left(a) => Column::Left(a),
                Column::Middle(_) => Column::Left(FocusedApp::Artists),
                Column::Right(c) => Column::Middle(c),
            },
    {
        match self {
            Column::Left(a) => Column::Left(*a),
            Column::Middle(_) => Column::Left(FocusedApp::Artists),
            Column::Right(c) => Column::Middle(*c),
        }
    }

    /// Moves focus one column to the right; from the right column it stays.
    pub fn right(&self) -> (r: Self)
        ensures
            r == match *self {
                Column::Left(_) => Column::Middle(0),
                Column::Middle(c) => Column::Right(c),
                Column::Right(c) => Column::Right(c),
            },
    {
        match self {
            Column::Left(_) => Column::Middle(0),
            Column::Middle(c) => Column::Right(*c),
            Column::Right(c) => Column::Right(*c),
        }
    }
}

} // verus!
