//! Creating and updating occurrences and linking them to side dishes and tags.
use vstd::prelude::*;

use crate::ids::new_id;
use crate::models::{DbOccurrence, DbOccurrenceChangeset, DbOccurrenceSideDish, DbOccurrenceTag};
use crate::time::{now, GqlDate, Timestamp, MAX_DAY, MICROS_PER_DAY, MIN_DAY};

verus! {

/// Input of `createOccurrence`.
#[derive(Debug)]
pub struct CreateOccurrenceInput {
    pub date: Option<GqlDate>,
    pub kj: Option<i64>,
    pub kcal: Option<i64>,
    pub fat: Option<i64>,
    pub saturated_fat: Option<i64>,
    pub carbohydrates: Option<i64>,
    pub sugar: Option<i64>,
    pub fiber: Option<i64>,
    pub protein: Option<i64>,
    pub salt: Option<i64>,
    pub price_student: Option<i64>,
    pub price_staff: Option<i64>,
    pub price_guest: Option<i64>,
    pub dish: u128,
    pub location: u128,
    pub side_dishes: Option<Vec<u128>>,
    pub tags: Option<Vec<String>>,
}

/// Input of `updateOccurrence`.
#[derive(Debug, Clone, Copy)]
pub struct UpdateOccurrenceInput {
    pub id: u128,
    pub date: Option<GqlDate>,
    pub kj: Option<i64>,
    pub kcal: Option<i64>,
    pub fat: Option<i64>,
    pub saturated_fat: Option<i64>,
    pub carbohydrates: Option<i64>,
    pub sugar: Option<i64>,
    pub fiber: Option<i64>,
    pub protein: Option<i64>,
    pub salt: Option<i64>,
    pub price_student: Option<i64>,
    pub price_staff: Option<i64>,
    pub price_guest: Option<i64>,
    pub dish: Option<u128>,
}

/// Input of `deleteOccurrence`.
#[derive(Debug, Clone, Copy)]
pub struct DeleteOccurrenceInput {
    pub id: u128,
}

/// Input of `addSideDishToOccurrence`.
#[derive(Debug, Clone, Copy)]
pub struct AddSideDishToOccurrenceInput {
    pub occurrence: u128,
    pub dish: u128,
}

/// Input of `removeSideDishFromOccurrence`.
#[derive(Debug, Clone, Copy)]
pub struct RemoveSideDishFromOccurrenceInput {
    pub occurrence: u128,
    pub dish: u128,
}

/// Input of `addTagToOccurrence`.
#[derive(Debug)]
pub struct AddTagToOccurrenceInput {
    pub occurrence: u128,
    pub tag: String,
}

/// Input of `removeTagFromOccurrence`.
#[derive(Debug)]
pub struct RemoveTagFromOccurrenceInput {
    pub occurrence: u128,
    pub tag: String,
}

/// The link between an occurrence and one of its side dishes (`OccurrenceSideDish`).
#[derive(Debug, Clone, Copy, PartialEq, Eq, Structural)]
pub struct OccurrenceSideDish {
    pub occurrence_id: u128,
    pub dish_id: u128,
}

/// The link between an occurrence and one of its tags (`OccurrenceTag`).
#[derive(Debug)]
pub struct OccurrenceTag {
    pub occurrence_id: u128,
    pub tag_id: String,
}

impl AddSideDishToOccurrenceInput {
    /// The row that links the side dish.
    pub fn row(&self) -> (r: DbOccurrenceSideDish)
        ensures
            r.occurrence == self.occurrence,
            r.dish == self.dish,
    {
        DbOccurrenceSideDish { occurrence: self.occurrence, dish: self.dish }
    }

    /// The link that the mutation returns.
    pub fn link(&self) -> (l: OccurrenceSideDish)
        ensures
            l.occurrence_id == self.occurrence,
            l.dish_id == self.dish,
    {
        OccurrenceSideDish { occurrence_id: self.occurrence, dish_id: self.dish }
    }
}

impl RemoveSideDishFromOccurrenceInput {
    /// The link that the mutation returns.
    pub fn link(&self) -> (l: OccurrenceSideDish)
        ensures
            l.occurrence_id == self.occurrence,
            l.dish_id == self.dish,
    {
        OccurrenceSideDish { occurrence_id: self.occurrence, dish_id: self.dish }
    }
}

impl AddTagToOccurrenceInput {
    /// The row that links the tag.
    pub fn row(&self) -> (r: DbOccurrenceTag)
        ensures
            r.occurrence == self.occurrence,
            r.tag == self.tag,
    {
        DbOccurrenceTag { occurrence: self.occurrence, tag: self.tag.clone() }
    }

    /// The link that the mutation returns.
    pub fn link(self) -> (l: OccurrenceTag)
        ensures
            l.occurrence_id == self.occurrence,
            l.tag_id == self.tag,
    {
        OccurrenceTag { occurrence_id: self.occurrence, tag_id: self.tag }
    }
}

impl RemoveTagFromOccurrenceInput {
    /// The link that the mutation returns.
    pub fn link(self) -> (l: OccurrenceTag)
        ensures
            l.occurrence_id == self.occurrence,
            l.tag_id == self.tag,
    {
        OccurrenceTag { occurrence_id: self.occurrence, tag_id: self.tag }
    }
}

/// The midnight of an optional date.
pub open spec fn date_midnight(d: Option<GqlDate>) -> Option<Timestamp> {
    match d {
        Some(d) => Some(Timestamp { micros: (d.days as int * MICROS_PER_DAY as int) as i64 }),
        None => None,
    }
}

/// The dates of the input lie in chrono's range.
pub open spec fn update_input_wf(value: UpdateOccurrenceInput) -> bool {
    value.date matches Some(d) ==> d.wf()
}

/// The columns that `updateOccurrence` writes: each given field, the date as its
/// midnight, except that the staff price is written from the input's student price
/// (the given staff price is not used); location, availability and status are never
/// written.
pub open spec fn occurrence_changeset_spec(value: UpdateOccurrenceInput) -> DbOccurrenceChangeset {
    DbOccurrenceChangeset {
        dish: value.dish,
        date: date_midnight(value.date),
        kj: value.kj,
        kcal: value.kcal,
        fat: value.fat,
        saturated_fat: value.saturated_fat,
        carbohydrates: value.carbohydrates,
        sugar: value.sugar,
        fiber: value.fiber,
        protein: value.protein,
        salt: value.salt,
        price_student: value.price_student,
        price_staff: value.price_student,
        price_guest: value.price_guest,
        location: None,
        not_available_after: None,
        status: None,
    }
}

impl DbOccurrenceChangeset {
    /// The columns that `updateOccurrence` writes for the input.
    pub fn from(value: UpdateOccurrenceInput) -> (c: DbOccurrenceChangeset)
        requires
            update_input_wf(value),
        ensures
            c == occurrence_changeset_spec(value),
    {
        let date = match value.date {
            Some(d) => Some(d.midnight()),
            None => None,
        };
        DbOccurrenceChangeset {
            dish: value.dish,
            date,
            kj: value.kj,
            kcal: value.kcal,
            fat: value.fat,
            saturated_fat: value.saturated_fat,
            carbohydrates: value.carbohydrates,
            sugar: value.sugar,
            fiber: value.fiber,
            protein: value.protein,
            salt: value.salt,
            price_student: value.price_student,
            price_staff: value.price_student,
            price_guest: value.price_guest,
            location: None,
            not_available_after: None,
            status: None,
        }
    }
}

/// What `createOccurrence` inserts.
#[derive(Debug)]
pub struct NewOccurrence {
    pub occurrence: DbOccurrence,
    pub side_dishes: Vec<DbOccurrenceSideDish>,
    pub tags: Vec<DbOccurrenceTag>,
}

/// The status of a new occurrence.
pub open spec fn awaiting_approval() -> Seq<char> {
    "AWAITING_APPROVAL"@
}

/// The rows of a new occurrence with the given id, created at `now`: its date is the
/// midnight of the given date, or `now` without one; it awaits approval and is
/// available; the side dishes and tags are linked in the given order.
pub fn new_occurrence(input: CreateOccurrenceInput, id: u128, now: Timestamp) -> (n: NewOccurrence)
    requires
        input.date matches Some(d) ==> d.wf(),
    ensures
        n.occurrence.id == id,
        n.occurrence.date == match input.date {
            Some(d) => date_midnight(Some(d))->0,
            None => now,
        },
        n.occurrence.dish == input.dish,
        n.occurrence.location == input.location,
        n.occurrence.kj == input.kj,
        n.occurrence.kcal == input.kcal,
        n.occurrence.fat == input.fat,
        n.occurrence.saturated_fat == input.saturated_fat,
        n.occurrence.carbohydrates == input.carbohydrates,
        n.occurrence.sugar == input.sugar,
        n.occurrence.fiber == input.fiber,
        n.occurrence.protein == input.protein,
        n.occurrence.salt == input.salt,
        n.occurrence.price_student == input.price_student,
        n.occurrence.price_staff == input.price_staff,
        n.occurrence.price_guest == input.price_guest,
        n.occurrence.not_available_after is None,
        n.occurrence.status@ == awaiting_approval(),
        n.side_dishes@ == match input.side_dishes {
            Some(v) => v@.map_values(|d: u128| DbOccurrenceSideDish { occurrence: id, dish: d }),
            None => Seq::empty(),
        },
        n.tags@.len() == match input.tags {
            Some(v) => v@.len(),
            None => 0,
        },
        forall|i: int| 0 <= i < n.tags@.len() ==> (#[trigger] n.tags@[i]).occurrence == id && n.tags@[i].tag
            == input.tags->0@[i],
{
    let date = match input.date {
        Some(d) => d.midnight(),
        None => now,
    };
    let occurrence = DbOccurrence {
        id,
        location: input.location,
        dish: input.dish,
        date,
        kj: input.kj,
        kcal: input.kcal,
        fat: input.fat,
        saturated_fat: input.saturated_fat,
        carbohydrates: input.carbohydrates,
        sugar: input.sugar,
        fiber: input.fiber,
        protein: input.protein,
        salt: input.salt,
        price_student: input.price_student,
        price_staff: input.price_staff,
        price_guest: input.price_guest,
        not_available_after: None,
        status: String::from_str("AWAITING_APPROVAL"),
    };
    let mut side_dishes: Vec<DbOccurrenceSideDish> = Vec::new();
    match &input.side_dishes {
        Some(ids) => {
            let n = ids.len();
            for i in 0..n
                invariant
                    n == ids@.len(),
                    side_dishes@ == ids@.take(i as int).map_values(|d: u128| DbOccurrenceSideDish { occurrence: id, dish: d }),
            {
                side_dishes.push(DbOccurrenceSideDish { occurrence: id, dish: ids[i] });
                assert(side_dishes@ =~= ids@.take(i + 1).map_values(|d: u128| DbOccurrenceSideDish { occurrence: id, dish: d }));
            }
            assert(ids@.take(n as int) =~= ids@);
        },
        None => {
            assert(side_dishes@ =~= Seq::<DbOccurrenceSideDish>::empty());
        },
    }
    let mut tags: Vec<DbOccurrenceTag> = Vec::new();
    match input.tags {
        Some(keys) => {
            let ghost all = keys@;
            for key in it: keys.into_iter()
                invariant
                    it.seq() == all,
                    tags@.len() == it.index(),
                    forall|i: int| 0 <= i < tags@.len() ==> (#[trigger] tags@[i]).occurrence == id && tags@[i].tag == all[i],
            {
                tags.push(DbOccurrenceTag { occurrence: id, tag: key });
            }
        },
        None => {},
    }
    NewOccurrence { occurrence, side_dishes, tags }
}

/// The rows of a new occurrence with a fresh id, created now: as `new_occurrence`
/// states, with the id and, without a date, the date left to the clock.
pub fn create_occurrence_rows(input: CreateOccurrenceInput) -> (n: NewOccurrence)
    requires
        input.date matches Some(d) ==> d.wf(),
    ensures
        n.occurrence.dish == input.dish,
        n.occurrence.location == input.location,
        n.occurrence.kj == input.kj,
        n.occurrence.kcal == input.kcal,
        n.occurrence.fat == input.fat,
        n.occurrence.saturated_fat == input.saturated_fat,
        n.occurrence.carbohydrates == input.carbohydrates,
        n.occurrence.sugar == input.sugar,
        n.occurrence.fiber == input.fiber,
        n.occurrence.protein == input.protein,
        n.occurrence.salt == input.salt,
        n.occurrence.price_student == input.price_student,
        n.occurrence.price_staff == input.price_staff,
        n.occurrence.price_guest == input.price_guest,
        n.occurrence.status@ == awaiting_approval(),
        n.occurrence.not_available_after is None,
        input.date is Some ==> n.occurrence.date == date_midnight(input.date)->0,
        input.date is None ==> n.occurrence.date.wf(),
        n.side_dishes@ == match input.side_dishes {
            Some(v) => v@.map_values(|d: u128| DbOccurrenceSideDish { occurrence: n.occurrence.id, dish: d }),
            None => Seq::empty(),
        },
        n.tags@.len() == match input.tags {
            Some(v) => v@.len(),
            None => 0,
        },
        forall|i: int| 0 <= i < n.tags@.len() ==> (#[trigger] n.tags@[i]).occurrence == n.occurrence.id && n.tags@[i].tag
            == input.tags->0@[i],
{
    let t = now();
    new_occurrence(input, new_id(), t)
}

/// `updateOccurrence` never moves an occurrence to another location, never changes
/// its availability or status, and never touches a column whose field is absent;
/// the student and the staff price are both written from the student price.
pub proof fn lemma_occurrence_update_scope(value: UpdateOccurrenceInput)
    ensures
        occurrence_changeset_spec(value).location is None,
        occurrence_changeset_spec(value).not_available_after is None,
        occurrence_changeset_spec(value).status is None,
        value.dish is None ==> occurrence_changeset_spec(value).dish is None,
        value.date is None ==> occurrence_changeset_spec(value).date is None,
        occurrence_changeset_spec(value).price_student == value.price_student,
        occurrence_changeset_spec(value).price_staff == value.price_student,
        occurrence_changeset_spec(value).price_guest == value.price_guest,
{
}

/// `updateOccurrence` writes each nutrient column, the dish and the student and guest
/// prices from the input field of the same name, and the date (where one is given)
/// as the first microsecond of that day.
pub proof fn lemma_occurrence_update_writes_given_fields(value: UpdateOccurrenceInput)
    requires
        update_input_wf(value),
    ensures
        occurrence_changeset_spec(value).kj == value.kj,
        occurrence_changeset_spec(value).kcal == value.kcal,
        occurrence_changeset_spec(value).fat == value.fat,
        occurrence_changeset_spec(value).saturated_fat == value.saturated_fat,
        occurrence_changeset_spec(value).carbohydrates == value.carbohydrates,
        occurrence_changeset_spec(value).sugar == value.sugar,
        occurrence_changeset_spec(value).fiber == value.fiber,
        occurrence_changeset_spec(value).protein == value.protein,
        occurrence_changeset_spec(value).salt == value.salt,
        occurrence_changeset_spec(value).price_student == value.price_student,
        occurrence_changeset_spec(value).price_guest == value.price_guest,
        occurrence_changeset_spec(value).dish == value.dish,
        (occurrence_changeset_spec(value).date is Some) == (value.date is Some),
        value.date matches Some(d) ==> occurrence_changeset_spec(value).date->0.micros == d.days * 86400000000,
{
    if let Some(d) = value.date {
        assert(MIN_DAY as int * 86400000000 <= d.days as int * 86400000000 <= MAX_DAY as int * 86400000000)
            by (nonlinear_arith)
            requires MIN_DAY <= d.days <= MAX_DAY;
    }
}

} // verus!
