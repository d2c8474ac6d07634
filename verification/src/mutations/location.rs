//! Creating and updating locations.
use vstd::prelude::*;

verus! {

/// Input of `createLocation`; without `visible` the database default applies.
#[derive(Debug)]
pub struct CreateLocationInput {
    pub external_id: i64,
    pub name: String,
    pub visible: Option<bool>,
}

/// Input of `updateLocation`: absent fields are left as they are.
#[derive(Debug)]
pub struct UpdateLocationInput {
    pub id: u128,
    pub external_id: Option<i64>,
    pub name: Option<String>,
    pub visible: Option<bool>,
}

} // verus!
