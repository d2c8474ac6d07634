//! Creating and updating tags.
use vstd::prelude::*;

use crate::error::GqlApiError;
use crate::models::TagPriority;

verus! {

/// Input of `createTag`; absent priority and allergy flag take the database defaults.
#[derive(Debug)]
pub struct CreateTagInput {
    pub key: String,
    pub name: String,
    pub description: String,
    pub short_name: Option<String>,
    pub priority: Option<TagPriority>,
    pub is_allergy: Option<bool>,
}

/// Input of `updateTag`: absent fields are left as they are.
#[derive(Debug)]
pub struct UpdateTagInput {
    pub key: String,
    pub name: Option<String>,
    pub description: Option<String>,
    pub short_name: Option<String>,
    pub priority: Option<TagPriority>,
    pub is_allergy: Option<bool>,
}

/// `Tag '<key>' not found`
pub open spec fn tag_not_found_message(key: Seq<char>) -> Seq<char> {
    "Tag '"@ + key + "' not found"@
}

/// `Tag with ID '<key>' not found`
pub open spec fn tag_id_not_found_message(key: Seq<char>) -> Seq<char> {
    "Tag with ID '"@ + key + "' not found"@
}

/// The error of `updateTag` for a tag key that does not exist.
pub fn tag_not_found(key: &str) -> (e: GqlApiError)
    ensures
        e matches GqlApiError::NotFound(m) && m@ == tag_not_found_message(key@),
{
    let mut m = String::from_str("Tag '");
    m.append(key);
    m.append("' not found");
    GqlApiError::not_found(m)
}

/// The error of resolving the tag of an occurrence tag link whose tag does not exist.
pub fn tag_id_not_found(key: &str) -> (e: GqlApiError)
    ensures
        e matches GqlApiError::NotFound(m) && m@ == tag_id_not_found_message(key@),
{
    let mut m = String::from_str("Tag with ID '");
    m.append(key);
    m.append("' not found");
    GqlApiError::not_found(m)
}

} // verus!
