//! The objects of the GraphQL schema and how they are made from database rows.
use vstd::prelude::*;

use crate::error::{DbError, GqlApiError};
use crate::models::{copy_opt_string, DbDish, DbDishAlias, DbImage, DbLocation, DbOccurrence, DbReview, DbTag, DbUser, Duplicate, TagPriority};
use crate::time::{gql_timestamp_opt, rfc3339_micros_string, GqlDate, GqlTimestamp, Timestamp};

verus! {

/// A dish (`Dish`).
#[derive(Debug, Clone)]
pub struct GqlDish {
    pub id: u128,
    pub name_de: String,
    pub name_en: Option<String>,
}

impl GqlDish {
    pub fn from(value: DbDish) -> (g: GqlDish)
        ensures
            g.id == value.id,
            g.name_de == value.name_de,
            g.name_en == value.name_en,
    {
        GqlDish { id: value.id, name_de: value.name_de, name_en: value.name_en }
    }

    /// The review data of this dish, restricted by `filter`.
    pub fn review_data(&self, filter: Option<ReviewFilter>) -> (d: GqlReviewDataDish)
        ensures
            d.dish_id == self.id,
            d.filter == filter,
    {
        GqlReviewDataDish { dish_id: self.id, filter }
    }
}

/// An alternative name of a dish (`DishAlias`).
#[derive(Debug, Clone)]
pub struct GqlDishAlias {
    pub alias_name: String,
    pub normalized_alias_name: String,
    /// The dish the alias belongs to (not exposed via the API).
    pub dish_id: u128,
}

impl GqlDishAlias {
    pub fn from(value: DbDishAlias) -> (g: GqlDishAlias)
        ensures
            g.alias_name == value.alias_name,
            g.normalized_alias_name == value.normalized_alias_name,
            g.dish_id == value.dish,
    {
        GqlDishAlias {
            alias_name: value.alias_name,
            normalized_alias_name: value.normalized_alias_name,
            dish_id: value.dish,
        }
    }
}

/// A review image (`Image`).
#[derive(Debug, Clone, Copy, PartialEq, Eq, Structural)]
pub struct GqlImage {
    pub id: u128,
    /// The review the image belongs to (not exposed via the API).
    pub review_id: u128,
}

impl GqlImage {
    pub fn from(value: DbImage) -> (g: GqlImage)
        ensures
            g.id == value.id,
            g.review_id == value.review,
    {
        GqlImage { id: value.id, review_id: value.review }
    }
}

/// A canteen (`Location`).
#[derive(Debug, Clone)]
pub struct GqlLocation {
    pub id: u128,
    pub external_id: i64,
    pub name: String,
    pub visible: bool,
}

impl GqlLocation {
    pub fn from(value: DbLocation) -> (g: GqlLocation)
        ensures
            g.id == value.id,
            g.external_id == value.external_id,
            g.name == value.name,
            g.visible == value.visible,
    {
        GqlLocation { id: value.id, external_id: value.external_id, name: value.name, visible: value.visible }
    }
}

impl DbOccurrence {
    /// Every instant of the row can be handled by chrono.
    pub open spec fn wf(self) -> bool {
        &&& self.date.wf()
        &&& self.not_available_after matches Some(t) ==> t.wf()
    }
}

/// An occurrence of a dish (`Occurrence`).
#[derive(Debug, Clone)]
pub struct GqlOccurrence {
    pub id: u128,
    pub date: GqlDate,
    pub kj: Option<i64>,
    pub kcal: Option<i64>,
    pub fat: Option<i64>,
    pub saturated_fat: Option<i64>,
    pub carbohydrates: Option<i64>,
    pub sugar: Option<i64>,
    pub fiber: Option<i64>,
    pub protein: Option<i64>,
    pub salt: Option<i64>,
    pub price_student: Option<i64>,
    pub price_staff: Option<i64>,
    pub price_guest: Option<i64>,
    pub not_available_after: Option<GqlTimestamp>,
    /// The location of the occurrence (not exposed via the API).
    pub location_id: u128,
    /// The dish of the occurrence (not exposed via the API).
    pub dish_id: u128,
}

impl GqlOccurrence {
    pub fn from(occ: DbOccurrence) -> (g: GqlOccurrence)
        requires
            occ.wf(),
        ensures
            g.id == occ.id,
            g.date.days as int == occ.date.micros as int / crate::time::MICROS_PER_DAY as int,
            g.kj == occ.kj,
            g.kcal == occ.kcal,
            g.fat == occ.fat,
            g.saturated_fat == occ.saturated_fat,
            g.carbohydrates == occ.carbohydrates,
            g.sugar == occ.sugar,
            g.fiber == occ.fiber,
            g.protein == occ.protein,
            g.salt == occ.salt,
            g.price_student == occ.price_student,
            g.price_staff == occ.price_staff,
            g.price_guest == occ.price_guest,
            g.not_available_after is Some <==> occ.not_available_after is Some,
            g.not_available_after matches Some(t) ==> t.0@ == rfc3339_micros_string(occ.not_available_after->0.micros as int),
            g.location_id == occ.location,
            g.dish_id == occ.dish,
    {
        GqlOccurrence {
            id: occ.id,
            date: occ.date.date(),
            kj: occ.kj,
            kcal: occ.kcal,
            fat: occ.fat,
            saturated_fat: occ.saturated_fat,
            carbohydrates: occ.carbohydrates,
            sugar: occ.sugar,
            fiber: occ.fiber,
            protein: occ.protein,
            salt: occ.salt,
            price_student: occ.price_student,
            price_staff: occ.price_staff,
            price_guest: occ.price_guest,
            not_available_after: gql_timestamp_opt(occ.not_available_after),
            location_id: occ.location,
            dish_id: occ.dish,
        }
    }

    /// The review data of this occurrence.
    pub fn review_data(&self) -> (d: GqlReviewDataOccurrence)
        ensures
            d.occurrence_id == self.id,
    {
        GqlReviewDataOccurrence { occurrence_id: self.id }
    }
}

impl DbReview {
    /// Every instant of the row can be handled by chrono.
    pub open spec fn wf(self) -> bool {
        &&& self.created_at.wf()
        &&& self.updated_at.wf()
        &&& self.accepted_at matches Some(t) ==> t.wf()
    }
}

/// A review (`Review`).
#[derive(Debug, Clone)]
pub struct GqlReview {
    pub id: u128,
    pub display_name: Option<String>,
    pub stars: i64,
    pub text: Option<String>,
    pub created_at: GqlTimestamp,
    pub updated_at: GqlTimestamp,
    pub accepted_at: Option<GqlTimestamp>,
    /// The occurrence the review belongs to (not exposed via the API).
    pub occurrence_id: u128,
}

impl GqlReview {
    pub fn from(value: DbReview) -> (g: GqlReview)
        requires
            value.wf(),
        ensures
            g.id == value.id,
            g.display_name == value.display_name,
            g.stars == value.stars,
            g.text == value.text,
            g.created_at.0@ == rfc3339_micros_string(value.created_at.micros as int),
            g.updated_at.0@ == rfc3339_micros_string(value.updated_at.micros as int),
            g.accepted_at is Some <==> value.accepted_at is Some,
            g.accepted_at matches Some(t) ==> t.0@ == rfc3339_micros_string(value.accepted_at->0.micros as int),
            g.occurrence_id == value.occurrence,
    {
        GqlReview {
            id: value.id,
            display_name: value.display_name,
            stars: value.stars,
            text: value.text,
            created_at: GqlTimestamp::from(value.created_at),
            updated_at: GqlTimestamp::from(value.updated_at),
            accepted_at: gql_timestamp_opt(value.accepted_at),
            occurrence_id: value.occurrence,
        }
    }
}

impl Duplicate for GqlReview {
    fn duplicate(&self) -> (g: GqlReview) {
        GqlReview {
            id: self.id,
            display_name: copy_opt_string(&self.display_name),
            stars: self.stars,
            text: copy_opt_string(&self.text),
            created_at: self.created_at.duplicate(),
            updated_at: self.updated_at.duplicate(),
            accepted_at: match &self.accepted_at {
                Some(t) => Some(t.duplicate()),
                None => None,
            },
            occurrence_id: self.occurrence_id,
        }
    }
}

/// A tag of an occurrence, e.g. an allergen (`Tag`).
#[derive(Debug, Clone)]
pub struct GqlTag {
    pub key: String,
    pub name: String,
    pub description: String,
    pub short_name: Option<String>,
    pub priority: TagPriority,
    pub is_allergy: bool,
}

impl GqlTag {
    pub fn from(value: DbTag) -> (g: GqlTag)
        ensures
            g.key == value.key,
            g.name == value.name,
            g.description == value.description,
            g.short_name == value.short_name,
            g.priority == value.priority,
            g.is_allergy == value.is_allergy,
    {
        GqlTag {
            key: value.key,
            name: value.name,
            description: value.description,
            short_name: value.short_name,
            priority: value.priority,
            is_allergy: value.is_allergy,
        }
    }
}

/// A user (`User`); the password hash is never exposed.
#[derive(Debug, Clone)]
pub struct GqlUser {
    pub id: u128,
    pub email: String,
}

impl GqlUser {
    pub fn from(value: DbUser) -> (g: GqlUser)
        ensures
            g.id == value.id,
            g.email == value.email,
    {
        GqlUser { id: value.id, email: value.email }
    }
}

/// Restricts reviews by their approval.
#[derive(Debug, Clone, Copy, PartialEq, Eq, Hash, Structural)]
pub struct ReviewFilter {
    /// `Some(true)`: only approved reviews; `Some(false)`: only unapproved ones.
    pub approved: Option<bool>,
}

/// The reviews of a dish, restricted by a filter (`ReviewDataDish`).
#[derive(Debug, Clone, Copy)]
pub struct GqlReviewDataDish {
    pub dish_id: u128,
    pub filter: Option<ReviewFilter>,
}

/// The reviews of an occurrence (`ReviewDataOccurrence`).
#[derive(Debug, Clone, Copy)]
pub struct GqlReviewDataOccurrence {
    pub occurrence_id: u128,
}

/// The current user from the lookup of the email in the request's claims. Any failure,
/// a missing user included, is internal, so that the API does not reveal which users
/// exist.
pub fn current_user(email: &str, lookup: Result<DbUser, DbError>) -> (r: Result<GqlUser, GqlApiError>)
    ensures
        lookup matches Ok(u) ==> (r matches Ok(g) && g.id == u.id && g.email == u.email),
        lookup is Err ==> (r matches Err(e) && e is Internal),
        lookup is Err ==> (r matches Err(GqlApiError::Internal { message, underlying_error }) && message@
            == "Failed to fetch user with email '"@ + email@ + "'"@ && underlying_error@ == match lookup {
            Err(DbError::Other(d)) => d@,
            _ => "Record not found"@,
        }),
{
    match lookup {
        Ok(u) => Ok(GqlUser::from(u)),
        Err(e) => {
            let detail = match e {
                DbError::NotFound => String::from_str("Record not found"),
                DbError::Other(d) => d,
            };
            let mut m = String::from_str("Failed to fetch user with email '");
            m.append(email);
            m.append("'");
            Err(GqlApiError::internal(m, detail))
        },
    }
}

} // verus!
