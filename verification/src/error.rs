use vstd::prelude::*;

verus! {

/// The user-facing message for a failed persistence call: constraint
/// violations get their fixed wording, anything else keeps the store's own
/// description.
pub fn db_error_message(unique_violation: bool, foreign_key_violation: bool, other: String) -> (r:
    String)
    ensures
        unique_violation ==> r@ == "Unique Constraint Violated"@,
        (!unique_violation && foreign_key_violation) ==> r@ == "Foreign Key Constraint Violated"@,
        (!unique_violation && !foreign_key_violation) ==> r == other,
{
    if unique_violation {
        "Unique Constraint Violated".to_owned()
    } else if foreign_key_violation {
        "Foreign Key Constraint Violated".to_owned()
    } else {
        other
    }
}

} // verus!
