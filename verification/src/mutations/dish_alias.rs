//! Creating and deleting alternative names of dishes.
use vstd::prelude::*;

use crate::error::GqlApiError;
use crate::models::DbDishAlias;

verus! {

/// Input of `createDishAlias`.
#[derive(Debug)]
pub struct CreateDishAliasInput {
    pub alias_name: String,
    pub normalized_alias_name: String,
    pub dish: u128,
}

/// Input of `deleteDishAlias`.
#[derive(Debug)]
pub struct DeleteDishAliasInput {
    pub alias_name: String,
}

impl CreateDishAliasInput {
    /// The row that the input inserts.
    pub fn row(self) -> (r: DbDishAlias)
        ensures
            r.alias_name == self.alias_name,
            r.normalized_alias_name == self.normalized_alias_name,
            r.dish == self.dish,
    {
        DbDishAlias { alias_name: self.alias_name, normalized_alias_name: self.normalized_alias_name, dish: self.dish }
    }
}


/// `Dish alias with name '<name>' not found`
pub open spec fn alias_not_found_message(name: Seq<char>) -> Seq<char> {
    "Dish alias with name '"@ + name + "' not found"@
}

impl DeleteDishAliasInput {
    /// The error for an alias name that does not exist.
    pub fn not_found(&self) -> (e: GqlApiError)
        ensures
            e matches GqlApiError::NotFound(m) && m@ == alias_not_found_message(self.alias_name@),
    {
        let mut m = String::from_str("Dish alias with name '");
        m.append(self.alias_name.as_str());
        m.append("' not found");
        GqlApiError::not_found(m)
    }
}

} // verus!
