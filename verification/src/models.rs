//! The rows of the database tables, with identifiers held as the 128-bit value
//! of their UUID and instants as [`Timestamp`]s.
use vstd::prelude::*;

use crate::time::Timestamp;

verus! {

/// Values that can be copied exactly (field by field).
pub trait Duplicate: Sized {
    fn duplicate(&self) -> (r: Self)
        ensures
            r == *self,
    ;
}

/// An exact copy of an optional string.
pub fn copy_opt_string(s: &Option<String>) -> (r: Option<String>)
    ensures
        r == *s,
{
    match s {
        Some(t) => Some(t.clone()),
        None => None,
    }
}

impl Duplicate for u128 {
    fn duplicate(&self) -> (r: u128) {
        *self
    }
}

impl Duplicate for String {
    fn duplicate(&self) -> (r: String) {
        self.clone()
    }
}

/// A row of `dishes`.
#[derive(Debug, Clone)]
pub struct DbDish {
    pub id: u128,
    pub name_de: String,
    pub name_en: Option<String>,
}

impl Duplicate for DbDish {
    fn duplicate(&self) -> (r: DbDish) {
        DbDish { id: self.id, name_de: self.name_de.clone(), name_en: copy_opt_string(&self.name_en) }
    }
}

/// A row of `dishes_aliases`.
#[derive(Debug, Clone)]
pub struct DbDishAlias {
    pub alias_name: String,
    pub normalized_alias_name: String,
    pub dish: u128,
}

impl Duplicate for DbDishAlias {
    fn duplicate(&self) -> (r: DbDishAlias) {
        DbDishAlias {
            alias_name: self.alias_name.clone(),
            normalized_alias_name: self.normalized_alias_name.clone(),
            dish: self.dish,
        }
    }
}

/// A row of `images`.
#[derive(Debug, Clone, Copy, PartialEq, Eq, Structural)]
pub struct DbImage {
    pub id: u128,
    pub review: u128,
}

impl Duplicate for DbImage {
    fn duplicate(&self) -> (r: DbImage) {
        *self
    }
}

/// A row of `locations`.
#[derive(Debug, Clone)]
pub struct DbLocation {
    pub id: u128,
    pub external_id: i64,
    pub name: String,
    pub visible: bool,
}

impl Duplicate for DbLocation {
    fn duplicate(&self) -> (r: DbLocation) {
        DbLocation { id: self.id, external_id: self.external_id, name: self.name.clone(), visible: self.visible }
    }
}

/// A row of `occurrences`: a dish offered at a location on a date.
#[derive(Debug, Clone)]
pub struct DbOccurrence {
    pub id: u128,
    pub date: Timestamp,
    pub kj: Option<i64>,
    pub kcal: Option<i64>,
    pub fat: Option<i64>,
    pub saturated_fat: Option<i64>,
    pub carbohydrates: Option<i64>,
    pub sugar: Option<i64>,
    pub fiber: Option<i64>,
    pub protein: Option<i64>,
    pub salt: Option<i64>,
    pub price_student: Option<i64>,
    pub price_staff: Option<i64>,
    pub price_guest: Option<i64>,
    pub dish: u128,
    pub location: u128,
    pub not_available_after: Option<Timestamp>,
    pub status: String,
}

impl Duplicate for DbOccurrence {
    fn duplicate(&self) -> (r: DbOccurrence) {
        DbOccurrence {
            id: self.id,
            date: self.date,
            kj: self.kj,
            kcal: self.kcal,
            fat: self.fat,
            saturated_fat: self.saturated_fat,
            carbohydrates: self.carbohydrates,
            sugar: self.sugar,
            fiber: self.fiber,
            protein: self.protein,
            salt: self.salt,
            price_student: self.price_student,
            price_staff: self.price_staff,
            price_guest: self.price_guest,
            dish: self.dish,
            location: self.location,
            not_available_after: self.not_available_after,
            status: self.status.clone(),
        }
    }
}

/// The columns of `occurrences` that an update writes; `None` leaves a column as it is.
#[derive(Debug, Clone)]
pub struct DbOccurrenceChangeset {
    pub location: Option<u128>,
    pub dish: Option<u128>,
    pub date: Option<Timestamp>,
    pub kj: Option<i64>,
    pub kcal: Option<i64>,
    pub fat: Option<i64>,
    pub saturated_fat: Option<i64>,
    pub carbohydrates: Option<i64>,
    pub sugar: Option<i64>,
    pub fiber: Option<i64>,
    pub protein: Option<i64>,
    pub salt: Option<i64>,
    pub price_student: Option<i64>,
    pub price_staff: Option<i64>,
    pub price_guest: Option<i64>,
    pub not_available_after: Option<Timestamp>,
    pub status: Option<String>,
}

/// A row of `occurrences_side_dishes`.
#[derive(Debug, Clone, Copy, PartialEq, Eq, Structural)]
pub struct DbOccurrenceSideDish {
    pub occurrence: u128,
    pub dish: u128,
}

/// A row of `occurrences_tags`.
#[derive(Debug, Clone)]
pub struct DbOccurrenceTag {
    pub occurrence: u128,
    pub tag: String,
}

/// A row of `reviews`.
#[derive(Debug, Clone)]
pub struct DbReview {
    pub id: u128,
    pub display_name: Option<String>,
    pub stars: i64,
    pub text: Option<String>,
    pub created_at: Timestamp,
    pub updated_at: Timestamp,
    pub accepted_at: Option<Timestamp>,
    pub occurrence: u128,
}

impl Duplicate for DbReview {
    fn duplicate(&self) -> (r: DbReview) {
        DbReview {
            id: self.id,
            display_name: copy_opt_string(&self.display_name),
            stars: self.stars,
            text: copy_opt_string(&self.text),
            created_at: self.created_at,
            updated_at: self.updated_at,
            accepted_at: self.accepted_at,
            occurrence: self.occurrence,
        }
    }
}

/// The columns of `reviews` that an update writes; `None` leaves a column as it is,
/// and `accepted_at: Some(None)` clears the acceptance.
#[derive(Debug, Clone)]
pub struct DbReviewChangeset {
    pub display_name: Option<String>,
    pub stars: Option<i64>,
    pub text: Option<String>,
    pub created_at: Option<Timestamp>,
    pub updated_at: Option<Timestamp>,
    pub accepted_at: Option<Option<Timestamp>>,
    pub occurrence: Option<u128>,
}

/// How prominently a tag is shown.
#[derive(Debug, Clone, Copy, PartialEq, Eq, Structural)]
pub enum TagPriority {
    HIGH,
    MEDIUM,
    LOW,
    HIDE,
}

/// A row of `tags`.
#[derive(Debug, Clone)]
pub struct DbTag {
    pub key: String,
    pub name: String,
    pub description: String,
    pub short_name: Option<String>,
    pub priority: TagPriority,
    pub is_allergy: bool,
}

impl Duplicate for DbTag {
    fn duplicate(&self) -> (r: DbTag) {
        DbTag {
            key: self.key.clone(),
            name: self.name.clone(),
            description: self.description.clone(),
            short_name: copy_opt_string(&self.short_name),
            priority: self.priority,
            is_allergy: self.is_allergy,
        }
    }
}

/// A row of `users`.
#[derive(Debug, Clone)]
pub struct DbUser {
    pub id: u128,
    pub email: String,
    pub password_hash: String,
    pub created_at: Timestamp,
    pub updated_at: Timestamp,
}

} // verus!
