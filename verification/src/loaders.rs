//! What the data loaders compute from the rows of their batched queries: which
//! keys need which query, and which rows answer which key.
use vstd::prelude::*;
use std::collections::HashMap;

use crate::group::{
    group_by_key, group_of, group_or_empty, index_by_key, last_with_key, one_or_empty, pick_groups,
    pick_one,
};
use crate::models::{DbDish, DbDishAlias, DbImage, DbLocation, DbOccurrence, DbReview, Duplicate};
use crate::queries::ReviewFilter;

verus! {

broadcast use vstd::std_specs::hash::group_hash_axioms;

// ---------------------------------------------------------------------------
// Keying rows

/// Reviews keyed by their own id.
pub open spec fn reviews_keyed_by_id(rows: Seq<DbReview>) -> Seq<(u128, DbReview)> {
    rows.map_values(|r: DbReview| (r.id, r))
}

/// Reviews keyed by their occurrence.
pub open spec fn reviews_keyed_by_occurrence(rows: Seq<DbReview>) -> Seq<(u128, DbReview)> {
    rows.map_values(|r: DbReview| (r.occurrence, r))
}

/// Images keyed by their own id.
pub open spec fn images_keyed_by_id(rows: Seq<DbImage>) -> Seq<(u128, DbImage)> {
    rows.map_values(|r: DbImage| (r.id, r))
}

/// Images keyed by their review.
pub open spec fn images_keyed_by_review(rows: Seq<DbImage>) -> Seq<(u128, DbImage)> {
    rows.map_values(|r: DbImage| (r.review, r))
}

/// Dish aliases keyed by their dish.
pub open spec fn aliases_keyed_by_dish(rows: Seq<DbDishAlias>) -> Seq<(u128, DbDishAlias)> {
    rows.map_values(|r: DbDishAlias| (r.dish, r))
}

/// Dishes keyed by their id.
pub open spec fn dishes_keyed_by_id(rows: Seq<DbDish>) -> Seq<(u128, DbDish)> {
    rows.map_values(|r: DbDish| (r.id, r))
}

/// Locations keyed by their id.
pub open spec fn locations_keyed_by_id(rows: Seq<DbLocation>) -> Seq<(u128, DbLocation)> {
    rows.map_values(|r: DbLocation| (r.id, r))
}

/// Occurrences keyed by their id.
pub open spec fn occurrences_keyed_by_id(rows: Seq<DbOccurrence>) -> Seq<(u128, DbOccurrence)> {
    rows.map_values(|r: DbOccurrence| (r.id, r))
}

/// Rows that come with their key as second component, keyed by it.
pub open spec fn keyed_by_second<T>(rows: Seq<(T, u128)>) -> Seq<(u128, T)> {
    rows.map_values(|r: (T, u128)| (r.1, r.0))
}

fn key_reviews_by_id(rows: Vec<DbReview>) -> (out: Vec<(u128, DbReview)>)
    ensures
        out@ == reviews_keyed_by_id(rows@),
{
    let ghost all = rows@;
    let mut out: Vec<(u128, DbReview)> = Vec::new();
    for r in it: rows.into_iter()
        invariant
            it.seq() == all,
            out@ == reviews_keyed_by_id(all.take(it.index())),
    {
        let ghost i = it.index();
        out.push((r.id, r));
        assert(out@ =~= reviews_keyed_by_id(all.take(i + 1)));
    }
    assert(all.take(all.len() as int) =~= all);
    out
}

fn key_reviews_by_occurrence(rows: Vec<DbReview>) -> (out: Vec<(u128, DbReview)>)
    ensures
        out@ == reviews_keyed_by_occurrence(rows@),
{
    let ghost all = rows@;
    let mut out: Vec<(u128, DbReview)> = Vec::new();
    for r in it: rows.into_iter()
        invariant
            it.seq() == all,
            out@ == reviews_keyed_by_occurrence(all.take(it.index())),
    {
        let ghost i = it.index();
        out.push((r.occurrence, r));
        assert(out@ =~= reviews_keyed_by_occurrence(all.take(i + 1)));
    }
    assert(all.take(all.len() as int) =~= all);
    out
}

fn key_images_by_id(rows: Vec<DbImage>) -> (out: Vec<(u128, DbImage)>)
    ensures
        out@ == images_keyed_by_id(rows@),
{
    let ghost all = rows@;
    let mut out: Vec<(u128, DbImage)> = Vec::new();
    for r in it: rows.into_iter()
        invariant
            it.seq() == all,
            out@ == images_keyed_by_id(all.take(it.index())),
    {
        let ghost i = it.index();
        out.push((r.id, r));
        assert(out@ =~= images_keyed_by_id(all.take(i + 1)));
    }
    assert(all.take(all.len() as int) =~= all);
    out
}

fn key_images_by_review(rows: Vec<DbImage>) -> (out: Vec<(u128, DbImage)>)
    ensures
        out@ == images_keyed_by_review(rows@),
{
    let ghost all = rows@;
    let mut out: Vec<(u128, DbImage)> = Vec::new();
    for r in it: rows.into_iter()
        invariant
            it.seq() == all,
            out@ == images_keyed_by_review(all.take(it.index())),
    {
        let ghost i = it.index();
        out.push((r.review, r));
        assert(out@ =~= images_keyed_by_review(all.take(i + 1)));
    }
    assert(all.take(all.len() as int) =~= all);
    out
}

fn key_aliases_by_dish(rows: Vec<DbDishAlias>) -> (out: Vec<(u128, DbDishAlias)>)
    ensures
        out@ == aliases_keyed_by_dish(rows@),
{
    let ghost all = rows@;
    let mut out: Vec<(u128, DbDishAlias)> = Vec::new();
    for r in it: rows.into_iter()
        invariant
            it.seq() == all,
            out@ == aliases_keyed_by_dish(all.take(it.index())),
    {
        let ghost i = it.index();
        out.push((r.dish, r));
        assert(out@ =~= aliases_keyed_by_dish(all.take(i + 1)));
    }
    assert(all.take(all.len() as int) =~= all);
    out
}

fn key_dishes_by_id(rows: Vec<DbDish>) -> (out: Vec<(u128, DbDish)>)
    ensures
        out@ == dishes_keyed_by_id(rows@),
{
    let ghost all = rows@;
    let mut out: Vec<(u128, DbDish)> = Vec::new();
    for r in it: rows.into_iter()
        invariant
            it.seq() == all,
            out@ == dishes_keyed_by_id(all.take(it.index())),
    {
        let ghost i = it.index();
        out.push((r.id, r));
        assert(out@ =~= dishes_keyed_by_id(all.take(i + 1)));
    }
    assert(all.take(all.len() as int) =~= all);
    out
}

fn key_locations_by_id(rows: Vec<DbLocation>) -> (out: Vec<(u128, DbLocation)>)
    ensures
        out@ == locations_keyed_by_id(rows@),
{
    let ghost all = rows@;
    let mut out: Vec<(u128, DbLocation)> = Vec::new();
    for r in it: rows.into_iter()
        invariant
            it.seq() == all,
            out@ == locations_keyed_by_id(all.take(it.index())),
    {
        let ghost i = it.index();
        out.push((r.id, r));
        assert(out@ =~= locations_keyed_by_id(all.take(i + 1)));
    }
    assert(all.take(all.len() as int) =~= all);
    out
}

fn key_occurrences_by_id(rows: Vec<DbOccurrence>) -> (out: Vec<(u128, DbOccurrence)>)
    ensures
        out@ == occurrences_keyed_by_id(rows@),
{
    let ghost all = rows@;
    let mut out: Vec<(u128, DbOccurrence)> = Vec::new();
    for r in it: rows.into_iter()
        invariant
            it.seq() == all,
            out@ == occurrences_keyed_by_id(all.take(it.index())),
    {
        let ghost i = it.index();
        out.push((r.id, r));
        assert(out@ =~= occurrences_keyed_by_id(all.take(i + 1)));
    }
    assert(all.take(all.len() as int) =~= all);
    out
}

fn key_by_second<T>(rows: Vec<(T, u128)>) -> (out: Vec<(u128, T)>)
    ensures
        out@ == keyed_by_second(rows@),
{
    let ghost all = rows@;
    let mut out: Vec<(u128, T)> = Vec::new();
    for r in it: rows.into_iter()
        invariant
            it.seq() == all,
            out@ == keyed_by_second(all.take(it.index())),
    {
        let ghost i = it.index();
        let (v, k) = r;
        out.push((k, v));
        assert(out@ =~= keyed_by_second(all.take(i + 1)));
    }
    assert(all.take(all.len() as int) =~= all);
    out
}

/// What a group map built from `rows` holds for `k`.
proof fn lemma_group_or_empty<T>(m: Map<u128, Vec<T>>, rows: Seq<(u128, T)>, k: u128)
    requires
        forall|j: u128| #[trigger] m.contains_key(j) <==> group_of(rows, j).len() > 0,
        forall|j: u128| #[trigger] m.contains_key(j) ==> m[j]@ == group_of(rows, j),
    ensures
        group_or_empty(m, k) == group_of(rows, k),
{
    if !m.contains_key(k) {
        assert(group_of(rows, k) =~= Seq::<T>::empty());
    }
}

// ---------------------------------------------------------------------------
// Loaders with one kind of key

/// The aliases of each dish among the rows (dish alias loader).
pub fn group_dish_aliases(rows: Vec<DbDishAlias>) -> (m: HashMap<u128, Vec<DbDishAlias>>)
    ensures
        forall|k: u128| #[trigger] m@.contains_key(k) <==> group_of(aliases_keyed_by_dish(rows@), k).len() > 0,
        forall|k: u128| #[trigger] m@.contains_key(k) ==> m@[k]@ == group_of(aliases_keyed_by_dish(rows@), k),
{
    group_by_key(key_aliases_by_dish(rows))
}

/// The reviews of each dish among `(review, dish)` rows (dish review loader).
pub fn group_reviews_by_dish(rows: Vec<(DbReview, u128)>) -> (m: HashMap<u128, Vec<DbReview>>)
    ensures
        forall|k: u128| #[trigger] m@.contains_key(k) <==> group_of(keyed_by_second(rows@), k).len() > 0,
        forall|k: u128| #[trigger] m@.contains_key(k) ==> m@[k]@ == group_of(keyed_by_second(rows@), k),
{
    group_by_key(key_by_second(rows))
}

/// The reviews of each occurrence among the rows (occurrence review loader).
pub fn group_reviews_by_occurrence(rows: Vec<DbReview>) -> (m: HashMap<u128, Vec<DbReview>>)
    ensures
        forall|k: u128| #[trigger] m@.contains_key(k) <==> group_of(reviews_keyed_by_occurrence(rows@), k).len() > 0,
        forall|k: u128| #[trigger] m@.contains_key(k) ==> m@[k]@ == group_of(reviews_keyed_by_occurrence(rows@), k),
{
    group_by_key(key_reviews_by_occurrence(rows))
}

/// The dishes among the rows by their id (dish loader).
pub fn index_dishes(rows: Vec<DbDish>) -> (m: HashMap<u128, DbDish>)
    ensures
        forall|k: u128| #[trigger] m@.contains_key(k) <==> last_with_key(dishes_keyed_by_id(rows@), k) is Some,
        forall|k: u128| #[trigger] m@.contains_key(k) ==> m@[k] == last_with_key(dishes_keyed_by_id(rows@), k)->0,
{
    index_by_key(key_dishes_by_id(rows))
}

/// The locations among the rows by their id (location loader).
pub fn index_locations(rows: Vec<DbLocation>) -> (m: HashMap<u128, DbLocation>)
    ensures
        forall|k: u128| #[trigger] m@.contains_key(k) <==> last_with_key(locations_keyed_by_id(rows@), k) is Some,
        forall|k: u128| #[trigger] m@.contains_key(k) ==> m@[k] == last_with_key(locations_keyed_by_id(rows@), k)->0,
{
    index_by_key(key_locations_by_id(rows))
}

/// The occurrences among the rows by their id (occurrence loader).
pub fn index_occurrences(rows: Vec<DbOccurrence>) -> (m: HashMap<u128, DbOccurrence>)
    ensures
        forall|k: u128| #[trigger] m@.contains_key(k) <==> last_with_key(occurrences_keyed_by_id(rows@), k) is Some,
        forall|k: u128| #[trigger] m@.contains_key(k) ==> m@[k] == last_with_key(occurrences_keyed_by_id(rows@), k)->0,
{
    index_by_key(key_occurrences_by_id(rows))
}

/// The side dishes of each occurrence among `(occurrence, dish)` rows (side dish loader).
pub fn group_side_dishes(rows: Vec<(u128, DbDish)>) -> (m: HashMap<u128, Vec<DbDish>>)
    ensures
        forall|k: u128| #[trigger] m@.contains_key(k) <==> group_of(rows@, k).len() > 0,
        forall|k: u128| #[trigger] m@.contains_key(k) ==> m@[k]@ == group_of(rows@, k),
{
    group_by_key(rows)
}

/// The tags of each occurrence among `(occurrence, tag)` rows (tag loader).
pub fn group_tags(rows: Vec<(u128, crate::models::DbTag)>) -> (m: HashMap<u128, Vec<crate::models::DbTag>>)
    ensures
        forall|k: u128| #[trigger] m@.contains_key(k) <==> group_of(rows@, k).len() > 0,
        forall|k: u128| #[trigger] m@.contains_key(k) ==> m@[k]@ == group_of(rows@, k),
{
    group_by_key(rows)
}


// ---------------------------------------------------------------------------
// Review loader

/// The key of the review loader.
#[derive(Debug, Clone, Copy, PartialEq, Eq, Hash, Structural)]
pub enum ReviewLoaderKey {
    /// The review with this id.
    ByReviewId { id: u128 },
    /// The reviews of this occurrence that pass the filter.
    ByOccurrenceId { occurrence_id: u128, filter: Option<ReviewFilter> },
    /// The reviews of all occurrences of this dish that pass the filter.
    ByDishId { dish_id: u128, filter: Option<ReviewFilter> },
}

/// Whether a review passes a filter: with `approved: Some(true)` only accepted reviews
/// pass, with `approved: Some(false)` only reviews that are not accepted, and without
/// a filter or a preference every review passes.
pub open spec fn review_matches(review: DbReview, filter: Option<ReviewFilter>) -> bool {
    match filter {
        Some(ReviewFilter { approved: Some(true) }) => review.accepted_at is Some,
        Some(ReviewFilter { approved: Some(false) }) => review.accepted_at is None,
        Some(ReviewFilter { approved: None }) => true,
        None => true,
    }
}

/// Whether a review passes a filter.
pub fn matches_filter(review: &DbReview, filter: Option<ReviewFilter>) -> (b: bool)
    ensures
        b == review_matches(*review, filter),
{
    match filter {
        Some(ReviewFilter { approved: Some(true) }) => review.accepted_at.is_some(),
        Some(ReviewFilter { approved: Some(false) }) => review.accepted_at.is_none(),
        Some(ReviewFilter { approved: None }) => true,
        None => true,
    }
}

/// The reviews of `s` that pass the filter, in order.
pub open spec fn keep_matching(s: Seq<DbReview>, filter: Option<ReviewFilter>) -> Seq<DbReview>
    decreases s.len(),
{
    if s.len() == 0 {
        Seq::empty()
    } else {
        let rest = keep_matching(s.drop_last(), filter);
        if review_matches(s.last(), filter) {
            rest.push(s.last())
        } else {
            rest
        }
    }
}

/// The `(id, key)` pairs of the keys for single reviews, in order.
pub open spec fn review_id_keys(keys: Seq<ReviewLoaderKey>) -> Seq<(u128, ReviewLoaderKey)>
    decreases keys.len(),
{
    if keys.len() == 0 {
        Seq::empty()
    } else {
        let rest = review_id_keys(keys.drop_last());
        match keys.last() {
            ReviewLoaderKey::ByReviewId { id } => rest.push((id, keys.last())),
            _ => rest,
        }
    }
}

/// The `(occurrence, filter, key)` triples of the keys for reviews of occurrences, in order.
pub open spec fn review_occurrence_keys(keys: Seq<ReviewLoaderKey>) -> Seq<(u128, Option<ReviewFilter>, ReviewLoaderKey)>
    decreases keys.len(),
{
    if keys.len() == 0 {
        Seq::empty()
    } else {
        let rest = review_occurrence_keys(keys.drop_last());
        match keys.last() {
            ReviewLoaderKey::ByOccurrenceId { occurrence_id, filter } => rest.push((occurrence_id, filter, keys.last())),
            _ => rest,
        }
    }
}

/// The `(dish, filter, key)` triples of the keys for reviews of dishes, in order.
pub open spec fn review_dish_keys(keys: Seq<ReviewLoaderKey>) -> Seq<(u128, Option<ReviewFilter>, ReviewLoaderKey)>
    decreases keys.len(),
{
    if keys.len() == 0 {
        Seq::empty()
    } else {
        let rest = review_dish_keys(keys.drop_last());
        match keys.last() {
            ReviewLoaderKey::ByDishId { dish_id, filter } => rest.push((dish_id, filter, keys.last())),
            _ => rest,
        }
    }
}

/// The keys of one batch of the review loader, sorted by the query that answers them.
pub struct ReviewKeyPlan {
    pub by_review_id: Vec<(u128, ReviewLoaderKey)>,
    pub by_occurrence_id: Vec<(u128, Option<ReviewFilter>, ReviewLoaderKey)>,
    pub by_dish_id: Vec<(u128, Option<ReviewFilter>, ReviewLoaderKey)>,
}

/// Sorts the keys of a batch by their variant, keeping their order.
pub fn plan_review_keys(keys: &[ReviewLoaderKey]) -> (p: ReviewKeyPlan)
    ensures
        p.by_review_id@ == review_id_keys(keys@),
        p.by_occurrence_id@ == review_occurrence_keys(keys@),
        p.by_dish_id@ == review_dish_keys(keys@),
{
    let mut by_review_id: Vec<(u128, ReviewLoaderKey)> = Vec::new();
    let mut by_occurrence_id: Vec<(u128, Option<ReviewFilter>, ReviewLoaderKey)> = Vec::new();
    let mut by_dish_id: Vec<(u128, Option<ReviewFilter>, ReviewLoaderKey)> = Vec::new();
    let n = keys.len();
    for i in 0..n
        invariant
            n == keys@.len(),
            by_review_id@ == review_id_keys(keys@.take(i as int)),
            by_occurrence_id@ == review_occurrence_keys(keys@.take(i as int)),
            by_dish_id@ == review_dish_keys(keys@.take(i as int)),
    {
        let key = keys[i];
        match key {
            ReviewLoaderKey::ByReviewId { id } => by_review_id.push((id, key)),
            ReviewLoaderKey::ByOccurrenceId { occurrence_id, filter } => by_occurrence_id.push((occurrence_id, filter, key)),
            ReviewLoaderKey::ByDishId { dish_id, filter } => by_dish_id.push((dish_id, filter, key)),
        }
        assert(keys@.take(i + 1).drop_last() =~= keys@.take(i as int));
        assert(by_review_id@ =~= review_id_keys(keys@.take(i + 1)));
        assert(by_occurrence_id@ =~= review_occurrence_keys(keys@.take(i + 1)));
        assert(by_dish_id@ =~= review_dish_keys(keys@.take(i + 1)));
    }
    assert(keys@.take(n as int) =~= keys@);
    ReviewKeyPlan { by_review_id, by_occurrence_id, by_dish_id }
}

/// The reviews of a list that pass a filter (copies, in order).
fn keep_matching_copies(g: &Vec<DbReview>, filter: Option<ReviewFilter>) -> (r: Vec<DbReview>)
    ensures
        r@ == keep_matching(g@, filter),
{
    let mut r: Vec<DbReview> = Vec::new();
    let n = g.len();
    for i in 0..n
        invariant
            n == g@.len(),
            r@ == keep_matching(g@.take(i as int), filter),
    {
        if matches_filter(&g[i], filter) {
            r.push(g[i].duplicate());
        }
        assert(g@.take(i + 1).drop_last() =~= g@.take(i as int));
        assert(r@ =~= keep_matching(g@.take(i + 1), filter));
    }
    assert(g@.take(n as int) =~= g@);
    r
}

/// For each `(id, filter, key)`, the key with the reviews of the group of `id` that
/// pass the filter.
fn pick_matching_reviews(
    keys: &[(u128, Option<ReviewFilter>, ReviewLoaderKey)],
    groups: &HashMap<u128, Vec<DbReview>>,
) -> (out: Vec<(ReviewLoaderKey, Vec<DbReview>)>)
    ensures
        out@.len() == keys@.len(),
        forall|i: int| 0 <= i < keys@.len() ==> (#[trigger] out@[i]).0 == keys@[i].2,
        forall|i: int| 0 <= i < keys@.len() ==> (#[trigger] out@[i]).1@ == keep_matching(group_or_empty(groups@, keys@[i].0), keys@[i].1),
{
    let mut out: Vec<(ReviewLoaderKey, Vec<DbReview>)> = Vec::new();
    let n = keys.len();
    for i in 0..n
        invariant
            n == keys@.len(),
            out@.len() == i,
            forall|j: int| 0 <= j < i ==> (#[trigger] out@[j]).0 == keys@[j].2,
            forall|j: int| 0 <= j < i ==> (#[trigger] out@[j]).1@ == keep_matching(group_or_empty(groups@, keys@[j].0), keys@[j].1),
    {
        let (id, filter, key) = keys[i];
        let matched: Vec<DbReview> = match groups.get(&id) {
            Some(g) => keep_matching_copies(g, filter),
            None => {
                assert(keep_matching(Seq::<DbReview>::empty(), filter) =~= Seq::<DbReview>::empty());
                Vec::new()
            },
        };
        out.push((key, matched));
    }
    out
}

/// Answers the keys for single reviews: each key gets the review with its id (the
/// last such row), or nothing.
pub fn reviews_by_review_id(keys: &[(u128, ReviewLoaderKey)], rows: Vec<DbReview>) -> (out: Vec<(ReviewLoaderKey, Vec<DbReview>)>)
    ensures
        out@.len() == keys@.len(),
        forall|i: int| 0 <= i < keys@.len() ==> (#[trigger] out@[i]).0 == keys@[i].1,
        forall|i: int| 0 <= i < keys@.len() ==> (#[trigger] out@[i]).1@ == match last_with_key(reviews_keyed_by_id(rows@), keys@[i].0) {
            Some(r) => seq![r],
            None => Seq::<DbReview>::empty(),
        },
{
    let ghost pairs = reviews_keyed_by_id(rows@);
    let index = index_by_key(key_reviews_by_id(rows));
    let out = pick_one(keys, &index);
    assert forall|i: int| 0 <= i < keys@.len() implies (#[trigger] out@[i]).1@ == match last_with_key(pairs, keys@[i].0) {
        Some(r) => seq![r],
        None => Seq::<DbReview>::empty(),
    } by {
        assert(out@[i].1@ == one_or_empty(index@, keys@[i].0));
    }
    out
}

/// Answers the keys for reviews of occurrences: each key gets the reviews of its
/// occurrence that pass its filter, in the order of the rows.
pub fn reviews_by_occurrence_id(keys: &[(u128, Option<ReviewFilter>, ReviewLoaderKey)], rows: Vec<DbReview>) -> (out: Vec<(ReviewLoaderKey, Vec<DbReview>)>)
    ensures
        out@.len() == keys@.len(),
        forall|i: int| 0 <= i < keys@.len() ==> (#[trigger] out@[i]).0 == keys@[i].2,
        forall|i: int| 0 <= i < keys@.len() ==> (#[trigger] out@[i]).1@ == keep_matching(group_of(reviews_keyed_by_occurrence(rows@), keys@[i].0), keys@[i].1),
{
    let ghost pairs = reviews_keyed_by_occurrence(rows@);
    let groups = group_by_key(key_reviews_by_occurrence(rows));
    let out = pick_matching_reviews(keys, &groups);
    assert forall|i: int| 0 <= i < keys@.len() implies (#[trigger] out@[i]).1@ == keep_matching(group_of(pairs, keys@[i].0), keys@[i].1) by {
        lemma_group_or_empty(groups@, pairs, keys@[i].0);
    }
    out
}

/// Answers the keys for reviews of dishes from `(review, dish)` rows: each key gets
/// the reviews of its dish that pass its filter, in the order of the rows.
pub fn reviews_by_dish_id(keys: &[(u128, Option<ReviewFilter>, ReviewLoaderKey)], rows: Vec<(DbReview, u128)>) -> (out: Vec<(ReviewLoaderKey, Vec<DbReview>)>)
    ensures
        out@.len() == keys@.len(),
        forall|i: int| 0 <= i < keys@.len() ==> (#[trigger] out@[i]).0 == keys@[i].2,
        forall|i: int| 0 <= i < keys@.len() ==> (#[trigger] out@[i]).1@ == keep_matching(group_of(keyed_by_second(rows@), keys@[i].0), keys@[i].1),
{
    let ghost pairs = keyed_by_second(rows@);
    let groups = group_by_key(key_by_second(rows));
    let out = pick_matching_reviews(keys, &groups);
    assert forall|i: int| 0 <= i < keys@.len() implies (#[trigger] out@[i]).1@ == keep_matching(group_of(pairs, keys@[i].0), keys@[i].1) by {
        lemma_group_or_empty(groups@, pairs, keys@[i].0);
    }
    out
}

// ---------------------------------------------------------------------------
// Image loader

/// The key of the image loader.
#[derive(Debug, Clone, Copy, PartialEq, Eq, Hash, Structural)]
pub enum ImageLoaderKey {
    ByImageId { id: u128 },
    ByReviewId { review_id: u128 },
    ByOccurrenceId { occurrence_id: u128 },
    ByDishId { dish_id: u128 },
}

/// The `(id, key)` pairs of the keys for single images, in order.
pub open spec fn image_id_keys(keys: Seq<ImageLoaderKey>) -> Seq<(u128, ImageLoaderKey)>
    decreases keys.len(),
{
    if keys.len() == 0 {
        Seq::empty()
    } else {
        let rest = image_id_keys(keys.drop_last());
        match keys.last() {
            ImageLoaderKey::ByImageId { id } => rest.push((id, keys.last())),
            _ => rest,
        }
    }
}

/// The `(review, key)` pairs of the keys for images of reviews, in order.
pub open spec fn image_review_keys(keys: Seq<ImageLoaderKey>) -> Seq<(u128, ImageLoaderKey)>
    decreases keys.len(),
{
    if keys.len() == 0 {
        Seq::empty()
    } else {
        let rest = image_review_keys(keys.drop_last());
        match keys.last() {
            ImageLoaderKey::ByReviewId { review_id } => rest.push((review_id, keys.last())),
            _ => rest,
        }
    }
}

/// The `(occurrence, key)` pairs of the keys for images of occurrences, in order.
pub open spec fn image_occurrence_keys(keys: Seq<ImageLoaderKey>) -> Seq<(u128, ImageLoaderKey)>
    decreases keys.len(),
{
    if keys.len() == 0 {
        Seq::empty()
    } else {
        let rest = image_occurrence_keys(keys.drop_last());
        match keys.last() {
            ImageLoaderKey::ByOccurrenceId { occurrence_id } => rest.push((occurrence_id, keys.last())),
            _ => rest,
        }
    }
}

/// The `(dish, key)` pairs of the keys for images of dishes, in order.
pub open spec fn image_dish_keys(keys: Seq<ImageLoaderKey>) -> Seq<(u128, ImageLoaderKey)>
    decreases keys.len(),
{
    if keys.len() == 0 {
        Seq::empty()
    } else {
        let rest = image_dish_keys(keys.drop_last());
        match keys.last() {
            ImageLoaderKey::ByDishId { dish_id } => rest.push((dish_id, keys.last())),
            _ => rest,
        }
    }
}

/// The keys of one batch of the image loader, sorted by the query that answers them.
pub struct ImageKeyPlan {
    pub by_image_id: Vec<(u128, ImageLoaderKey)>,
    pub by_review_id: Vec<(u128, ImageLoaderKey)>,
    pub by_occurrence_id: Vec<(u128, ImageLoaderKey)>,
    pub by_dish_id: Vec<(u128, ImageLoaderKey)>,
}

/// Sorts the keys of a batch by their variant, keeping their order.
pub fn plan_image_keys(keys: &[ImageLoaderKey]) -> (p: ImageKeyPlan)
    ensures
        p.by_image_id@ == image_id_keys(keys@),
        p.by_review_id@ == image_review_keys(keys@),
        p.by_occurrence_id@ == image_occurrence_keys(keys@),
        p.by_dish_id@ == image_dish_keys(keys@),
{
    let mut by_image_id: Vec<(u128, ImageLoaderKey)> = Vec::new();
    let mut by_review_id: Vec<(u128, ImageLoaderKey)> = Vec::new();
    let mut by_occurrence_id: Vec<(u128, ImageLoaderKey)> = Vec::new();
    let mut by_dish_id: Vec<(u128, ImageLoaderKey)> = Vec::new();
    let n = keys.len();
    for i in 0..n
        invariant
            n == keys@.len(),
            by_image_id@ == image_id_keys(keys@.take(i as int)),
            by_review_id@ == image_review_keys(keys@.take(i as int)),
            by_occurrence_id@ == image_occurrence_keys(keys@.take(i as int)),
            by_dish_id@ == image_dish_keys(keys@.take(i as int)),
    {
        let key = keys[i];
        match key {
            ImageLoaderKey::ByImageId { id } => by_image_id.push((id, key)),
            ImageLoaderKey::ByReviewId { review_id } => by_review_id.push((review_id, key)),
            ImageLoaderKey::ByOccurrenceId { occurrence_id } => by_occurrence_id.push((occurrence_id, key)),
            ImageLoaderKey::ByDishId { dish_id } => by_dish_id.push((dish_id, key)),
        }
        assert(keys@.take(i + 1).drop_last() =~= keys@.take(i as int));
        assert(by_image_id@ =~= image_id_keys(keys@.take(i + 1)));
        assert(by_review_id@ =~= image_review_keys(keys@.take(i + 1)));
        assert(by_occurrence_id@ =~= image_occurrence_keys(keys@.take(i + 1)));
        assert(by_dish_id@ =~= image_dish_keys(keys@.take(i + 1)));
    }
    assert(keys@.take(n as int) =~= keys@);
    ImageKeyPlan { by_image_id, by_review_id, by_occurrence_id, by_dish_id }
}

/// Answers the keys for single images: each key gets the image with its id (the last
/// such row), or nothing.
pub fn images_by_image_id(keys: &[(u128, ImageLoaderKey)], rows: Vec<DbImage>) -> (out: Vec<(ImageLoaderKey, Vec<DbImage>)>)
    ensures
        out@.len() == keys@.len(),
        forall|i: int| 0 <= i < keys@.len() ==> (#[trigger] out@[i]).0 == keys@[i].1,
        forall|i: int| 0 <= i < keys@.len() ==> (#[trigger] out@[i]).1@ == match last_with_key(images_keyed_by_id(rows@), keys@[i].0) {
            Some(r) => seq![r],
            None => Seq::<DbImage>::empty(),
        },
{
    let ghost pairs = images_keyed_by_id(rows@);
    let index = index_by_key(key_images_by_id(rows));
    let out = pick_one(keys, &index);
    assert forall|i: int| 0 <= i < keys@.len() implies (#[trigger] out@[i]).1@ == match last_with_key(pairs, keys@[i].0) {
        Some(r) => seq![r],
        None => Seq::<DbImage>::empty(),
    } by {
        assert(out@[i].1@ == one_or_empty(index@, keys@[i].0));
    }
    out
}

/// Answers the keys for images of reviews: each key gets the images of its review,
/// in the order of the rows.
pub fn images_by_review_id(keys: &[(u128, ImageLoaderKey)], rows: Vec<DbImage>) -> (out: Vec<(ImageLoaderKey, Vec<DbImage>)>)
    ensures
        out@.len() == keys@.len(),
        forall|i: int| 0 <= i < keys@.len() ==> (#[trigger] out@[i]).0 == keys@[i].1,
        forall|i: int| 0 <= i < keys@.len() ==> (#[trigger] out@[i]).1@ == group_of(images_keyed_by_review(rows@), keys@[i].0),
{
    let ghost pairs = images_keyed_by_review(rows@);
    let groups = group_by_key(key_images_by_review(rows));
    let out = pick_groups(keys, &groups);
    assert forall|i: int| 0 <= i < keys@.len() implies (#[trigger] out@[i]).1@ == group_of(pairs, keys@[i].0) by {
        lemma_group_or_empty(groups@, pairs, keys@[i].0);
    }
    out
}

/// Answers keys from `(image, id)` rows, where `id` is the occurrence or the dish of
/// the image's review: each key gets the images of its id, in the order of the rows.
pub fn images_by_second(keys: &[(u128, ImageLoaderKey)], rows: Vec<(DbImage, u128)>) -> (out: Vec<(ImageLoaderKey, Vec<DbImage>)>)
    ensures
        out@.len() == keys@.len(),
        forall|i: int| 0 <= i < keys@.len() ==> (#[trigger] out@[i]).0 == keys@[i].1,
        forall|i: int| 0 <= i < keys@.len() ==> (#[trigger] out@[i]).1@ == group_of(keyed_by_second(rows@), keys@[i].0),
{
    let ghost pairs = keyed_by_second(rows@);
    let groups = group_by_key(key_by_second(rows));
    let out = pick_groups(keys, &groups);
    assert forall|i: int| 0 <= i < keys@.len() implies (#[trigger] out@[i]).1@ == group_of(pairs, keys@[i].0) by {
        lemma_group_or_empty(groups@, pairs, keys@[i].0);
    }
    out
}


// ---------------------------------------------------------------------------
// Laws

/// The approval filter splits the reviews: a review passes exactly one of
/// `approved: Some(true)` and `approved: Some(false)`, and every review passes the
/// absent filter and the filter without a preference.
pub proof fn lemma_approval_filters_partition(review: DbReview)
    ensures
        review_matches(review, Some(ReviewFilter { approved: Some(true) })) != review_matches(
            review,
            Some(ReviewFilter { approved: Some(false) }),
        ),
        review_matches(review, None),
        review_matches(review, Some(ReviewFilter { approved: None })),
{
}

/// A batch of review keys is split without loss or duplication: every key goes to
/// exactly one of the three queries.
pub proof fn lemma_review_plan_covers_keys(keys: Seq<ReviewLoaderKey>)
    ensures
        review_id_keys(keys).len() + review_occurrence_keys(keys).len() + review_dish_keys(keys).len()
            == keys.len(),
    decreases keys.len(),
{
    if keys.len() > 0 {
        lemma_review_plan_covers_keys(keys.drop_last());
    }
}

/// Each key of a batch is answered under its own terms: the plan lists it with its
/// own review, occurrence or dish id and, for occurrences and dishes, with the key's
/// own approval filter, so that the reviews answered for a key are those that pass
/// that key's filter. And every key of the batch is listed.
pub proof fn lemma_review_plan_keeps_each_key(keys: Seq<ReviewLoaderKey>)
    ensures
        forall|j: int| 0 <= j < review_id_keys(keys).len() ==> (#[trigger] review_id_keys(keys)[j]).1
            == (ReviewLoaderKey::ByReviewId { id: review_id_keys(keys)[j].0 }),
        forall|j: int| 0 <= j < review_occurrence_keys(keys).len() ==> (#[trigger] review_occurrence_keys(keys)[j]).2
            == (ReviewLoaderKey::ByOccurrenceId {
                occurrence_id: review_occurrence_keys(keys)[j].0,
                filter: review_occurrence_keys(keys)[j].1,
            }),
        forall|j: int| 0 <= j < review_dish_keys(keys).len() ==> (#[trigger] review_dish_keys(keys)[j]).2
            == (ReviewLoaderKey::ByDishId { dish_id: review_dish_keys(keys)[j].0, filter: review_dish_keys(keys)[j].1 }),
        forall|i: int| 0 <= i < keys.len() ==> (#[trigger] keys[i] matches ReviewLoaderKey::ByReviewId { id }
            ==> review_id_keys(keys).contains((id, keys[i]))),
        forall|i: int| 0 <= i < keys.len() ==> (#[trigger] keys[i] matches ReviewLoaderKey::ByOccurrenceId {
            occurrence_id,
            filter,
        } ==> review_occurrence_keys(keys).contains((occurrence_id, filter, keys[i]))),
        forall|i: int| 0 <= i < keys.len() ==> (#[trigger] keys[i] matches ReviewLoaderKey::ByDishId { dish_id, filter }
            ==> review_dish_keys(keys).contains((dish_id, filter, keys[i]))),
    decreases keys.len(),
{
    if keys.len() > 0 {
        let pre = keys.drop_last();
        lemma_review_plan_keeps_each_key(pre);
        let n = keys.len() - 1;
        assert forall|i: int| 0 <= i < keys.len() implies (#[trigger] keys[i] matches ReviewLoaderKey::ByReviewId { id }
            ==> review_id_keys(keys).contains((id, keys[i]))) by {
            if let ReviewLoaderKey::ByReviewId { id } = keys[i] {
                if i < n {
                    assert(keys[i] == pre[i]);
                    let j = choose|j: int| 0 <= j < review_id_keys(pre).len() && review_id_keys(pre)[j] == (id, keys[i]);
                    assert(review_id_keys(keys)[j] == (id, keys[i]));
                } else {
                    assert(review_id_keys(keys).last() == (id, keys[i]));
                }
            }
        }
        assert forall|i: int| 0 <= i < keys.len() implies (#[trigger] keys[i] matches ReviewLoaderKey::ByOccurrenceId {
            occurrence_id,
            filter,
        } ==> review_occurrence_keys(keys).contains((occurrence_id, filter, keys[i]))) by {
            if let ReviewLoaderKey::ByOccurrenceId { occurrence_id, filter } = keys[i] {
                if i < n {
                    assert(keys[i] == pre[i]);
                    let j = choose|j: int| 0 <= j < review_occurrence_keys(pre).len() && review_occurrence_keys(pre)[j]
                        == (occurrence_id, filter, keys[i]);
                    assert(review_occurrence_keys(keys)[j] == (occurrence_id, filter, keys[i]));
                } else {
                    assert(review_occurrence_keys(keys).last() == (occurrence_id, filter, keys[i]));
                }
            }
        }
        assert forall|i: int| 0 <= i < keys.len() implies (#[trigger] keys[i] matches ReviewLoaderKey::ByDishId {
            dish_id,
            filter,
        } ==> review_dish_keys(keys).contains((dish_id, filter, keys[i]))) by {
            if let ReviewLoaderKey::ByDishId { dish_id, filter } = keys[i] {
                if i < n {
                    assert(keys[i] == pre[i]);
                    let j = choose|j: int| 0 <= j < review_dish_keys(pre).len() && review_dish_keys(pre)[j]
                        == (dish_id, filter, keys[i]);
                    assert(review_dish_keys(keys)[j] == (dish_id, filter, keys[i]));
                } else {
                    assert(review_dish_keys(keys).last() == (dish_id, filter, keys[i]));
                }
            }
        }
    }
}

/// A batch of image keys is split without loss or duplication: every key goes to
/// exactly one of the four queries.
pub proof fn lemma_image_plan_covers_keys(keys: Seq<ImageLoaderKey>)
    ensures
        image_id_keys(keys).len() + image_review_keys(keys).len() + image_occurrence_keys(keys).len()
            + image_dish_keys(keys).len() == keys.len(),
    decreases keys.len(),
{
    if keys.len() > 0 {
        lemma_image_plan_covers_keys(keys.drop_last());
    }
}

/// The reviews that a key for an occurrence receives are exactly the rows of that
/// occurrence that pass the key's filter, in the order of the rows.
pub proof fn lemma_occurrence_reviews_are_matching_rows(
    rows: Seq<DbReview>,
    occurrence: u128,
    filter: Option<ReviewFilter>,
)
    ensures
        keep_matching(group_of(reviews_keyed_by_occurrence(rows), occurrence), filter) == rows.filter(
            |r: DbReview| r.occurrence == occurrence && review_matches(r, filter),
        ),
    decreases rows.len(),
{
    reveal(Seq::filter);
    let pred = |r: DbReview| r.occurrence == occurrence && review_matches(r, filter);
    if rows.len() == 0 {
        assert(group_of(reviews_keyed_by_occurrence(rows), occurrence) =~= Seq::<DbReview>::empty());
        assert(keep_matching(Seq::<DbReview>::empty(), filter) =~= Seq::<DbReview>::empty());
    } else {
        let pre = rows.drop_last();
        let x = rows.last();
        lemma_occurrence_reviews_are_matching_rows(pre, occurrence, filter);
        let keyed = reviews_keyed_by_occurrence(rows);
        assert(keyed.drop_last() =~= reviews_keyed_by_occurrence(pre));
        assert(keyed.last() == (x.occurrence, x));
        let g = group_of(reviews_keyed_by_occurrence(pre), occurrence);
        if x.occurrence == occurrence {
            assert(group_of(keyed, occurrence) == g.push(x));
            assert(g.push(x).drop_last() =~= g);
        } else {
            assert(group_of(keyed, occurrence) == g);
        }
        assert(rows.filter(pred) == if pred(x) { pre.filter(pred).push(x) } else { pre.filter(pred) });
    }
}

/// The reviews that a key for a dish receives are exactly the reviews of the rows of
/// that dish that pass the key's filter, in the order of the rows.
pub proof fn lemma_dish_reviews_are_matching_rows(
    rows: Seq<(DbReview, u128)>,
    dish: u128,
    filter: Option<ReviewFilter>,
)
    ensures
        keep_matching(group_of(keyed_by_second(rows), dish), filter) == rows.filter(
            |p: (DbReview, u128)| p.1 == dish && review_matches(p.0, filter),
        ).map_values(|p: (DbReview, u128)| p.0),
    decreases rows.len(),
{
    reveal(Seq::filter);
    let pred = |p: (DbReview, u128)| p.1 == dish && review_matches(p.0, filter);
    let first = |p: (DbReview, u128)| p.0;
    if rows.len() == 0 {
        assert(group_of(keyed_by_second(rows), dish) =~= Seq::<DbReview>::empty());
        assert(keep_matching(Seq::<DbReview>::empty(), filter) =~= Seq::<DbReview>::empty());
        assert(rows.filter(pred).map_values(first) =~= Seq::<DbReview>::empty());
    } else {
        let pre = rows.drop_last();
        let x = rows.last();
        lemma_dish_reviews_are_matching_rows(pre, dish, filter);
        let keyed = keyed_by_second(rows);
        assert(keyed.drop_last() =~= keyed_by_second(pre));
        assert(keyed.last() == (x.1, x.0));
        let g = group_of(keyed_by_second(pre), dish);
        if x.1 == dish {
            assert(group_of(keyed, dish) == g.push(x.0));
            assert(g.push(x.0).drop_last() =~= g);
        } else {
            assert(group_of(keyed, dish) == g);
        }
        assert(rows.filter(pred) == if pred(x) { pre.filter(pred).push(x) } else { pre.filter(pred) });
        if pred(x) {
            assert(pre.filter(pred).push(x).map_values(first) =~= pre.filter(pred).map_values(first).push(x.0));
        }
    }
}

} // verus!
