use vstd::prelude::*;

verus! {

/// A gig's billing: a closed three-variant enumeration.
#[derive(Clone, Copy, Debug, PartialEq, Eq, Structural)]
pub enum Act {
    Main,
    Support,
    Shared,
}

/// The ordinal code an act role round-trips through (its storage form).
pub open spec fn act_code(a: Act) -> int {
    match a {
        Act::Main => 0,
        Act::Support => 1,
        Act::Shared => 2,
    }
}

/// The act role a stored code denotes; out-of-range codes fall back to the
/// default role.
pub open spec fn act_from_code(c: int) -> Act {
    if c == 0 {
        Act::Main
    } else if c == 1 {
        Act::Support
    } else if c == 2 {
        Act::Shared
    } else {
        Act::Main
    }
}

impl Act {
    /// The following role; saturates at the last one.
    pub fn next(&self) -> (r: Self)
        ensures
            r == match *self {
                Act::Main => Act::Support,
                Act::Support => Act::Shared,
                Act::Shared => Act::Shared,
            },
    {
        match self {
            Act::Main => Act::Support,
            Act::Support => Act::Shared,
            Act::Shared => Act::Shared,
        }
    }

    /// The preceding role; saturates at the first one.
    pub fn prev(&self) -> (r: Self)
        ensures
            r == match *self {
                Act::Main => Act::Main,
                Act::Support => Act::Main,
                Act::Shared => Act::Support,
            },
    {
        match self {
            Act::Main => Act::Main,
            Act::Support => Act::Main,
            Act::Shared => Act::Support,
        }
    }

    /// The storage code of this role.
    pub fn to_code(&self) -> (r: i64)
        ensures
            r == act_code(*self),
    {
        match self {
            Act::Main => 0,
            Act::Support => 1,
            Act::Shared => 2,
        }
    }

    /// The role a storage code denotes.
    pub fn from_code(c: i64) -> (r: Act)
        ensures
            r == act_from_code(c as int),
    {
        match c {
            0 => Act::Main,
            1 => Act::Support,
            2 => Act::Shared,
            _ => Act::Main,
        }
    }

    /// The display name of this role.
    pub fn label(&self) -> (r: &'static str)
        ensures
            *self == Act::Main ==> r@ == "Main Act"@,
            *self == Act::Support ==> r@ == "Support Act"@,
            *self == Act::Shared ==> r@ == "Shared Headliner"@,
    {
        match self {
            Act::Main => "Main Act",
            Act::Support => "Support Act",
            Act::Shared => "Shared Headliner",
        }
    }
}

/// The code mapping is exhaustive and deterministic in both directions:
/// every role survives a round trip through its code, and every in-range
/// code survives the round trip through its role.
pub proof fn lemma_act_code_round_trip()
    ensures
        forall|a: Act| act_from_code(act_code(a)) == a,
        forall|c: int| 0 <= c <= 2 ==> act_code(act_from_code(c)) == c,
{
}

} // verus!
