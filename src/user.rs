use vstd::prelude::*;

verus! {

/// A user record: a display name and a numeric id.
pub struct User {
    pub name: String,
    pub id: i64,
}

} // verus!
