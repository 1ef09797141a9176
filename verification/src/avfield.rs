use vstd::prelude::*;

verus! {

/// Which field of an artist or venue form an error belongs to.
#[derive(Clone, Debug)]
pub enum AvFieldError {
    Name(String),
    City(String),
    Save(String),
}

/// The field chain of the artist and venue forms: no field active, then
/// each field in declared order, then the submit button.
#[derive(Clone, Copy, Debug, PartialEq, Eq, Structural)]
pub enum AvField {
    Idle,
    Name,
    City,
    Save,
}

pub open spec fn av_index(f: AvField) -> int {
    match f {
        AvField::Idle => 0,
        AvField::Name => 1,
        AvField::City => 2,
        AvField::Save => 3,
    }
}

pub open spec fn av_next(f: AvField) -> AvField {
    match f {
        AvField::Idle => AvField::Name,
        AvField::Name => AvField::City,
        AvField::City => AvField::Save,
        AvField::Save => AvField::Save,
    }
}

pub open spec fn av_prev(f: AvField) -> AvField {
    match f {
        AvField::Idle => AvField::Idle,
        AvField::Name => AvField::Idle,
        AvField::City => AvField::Name,
        AvField::Save => AvField::City,
    }
}

impl AvField {
    /// The next field in declared order; saturates at the submit button.
    pub fn next(&self) -> (r: Self)
        ensures
            r == av_next(*self),
    {
        match self {
            AvField::Idle => AvField::Name,
            AvField::Name => AvField::City,
            AvField::City => AvField::Save,
            AvField::Save => AvField::Save,
        }
    }

    /// The previous field in declared order; saturates at the idle state.
    pub fn prev(&self) -> (r: Self)
        ensures
            r == av_prev(*self),
    {
        match self {
            AvField::Idle => AvField::Idle,
            AvField::Name => AvField::Idle,
            AvField::City => AvField::Name,
            AvField::Save => AvField::City,
        }
    }
}

/// Advancing visits each field in declared order exactly once from the
/// idle state to the submit button, retreating retraces the same path, and
/// both saturate at their ends.
pub proof fn lemma_av_field_traversal()
    ensures
        forall|f: AvField|
            av_index(#[trigger] av_next(f)) == if av_index(f) < 3 {
                av_index(f) + 1
            } else {
                3
            },
        forall|f: AvField|
            av_index(#[trigger] av_prev(f)) == if av_index(f) > 0 {
                av_index(f) - 1
            } else {
                0
            },
        forall|a: AvField, b: AvField| av_index(a) == av_index(b) ==> a == b,
{
}

} // verus!
