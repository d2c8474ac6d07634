//! Creating, updating and merging dishes.
use vstd::prelude::*;

use crate::error::GqlApiError;
use crate::ids::{new_id, uuid_list_string, uuid_list_text};
use crate::models::DbDish;

verus! {

/// Input of `createDish`.
#[derive(Debug)]
pub struct CreateDishInput {
    pub name_de: String,
    pub name_en: Option<String>,
}

/// Input of `updateDish`: absent names are left as they are.
#[derive(Debug)]
pub struct UpdateDishInput {
    pub id: u128,
    pub name_de: Option<String>,
    pub name_en: Option<String>,
}

/// Input of `mergeDishes`: the dishes `merge_ids` become one dish with the given names.
#[derive(Debug)]
pub struct MergeDishesInput {
    pub name_de: String,
    pub name_en: Option<String>,
    pub merge_ids: Vec<u128>,
}

/// The columns of `dishes` that the merge writes into an existing dish of the target
/// name: `name_en`, which may be set back to `NULL`; `name_de` stays.
#[derive(Debug)]
pub struct DbDishChangeset {
    pub name_de: Option<String>,
    pub name_en: Option<Option<String>>,
}

/// The row of a new dish with the given id.
pub fn new_dish(input: CreateDishInput, id: u128) -> (d: DbDish)
    ensures
        d.id == id,
        d.name_de == input.name_de,
        d.name_en == input.name_en,
{
    DbDish { id, name_de: input.name_de, name_en: input.name_en }
}

/// The row of a new dish with a fresh id.
pub fn create_dish_row(input: CreateDishInput) -> (d: DbDish)
    ensures
        d.name_de == input.name_de,
        d.name_en == input.name_en,
{
    new_dish(input, new_id())
}

/// The message of a merge with fewer than two dishes.
pub open spec fn too_few_dishes_message() -> Seq<char> {
    "Merging needs at least two dish ids"@
}

/// A merge needs at least two dish ids.
pub fn check_merge_size(input: &MergeDishesInput) -> (r: Result<(), GqlApiError>)
    ensures
        (r is Ok) == (input.merge_ids@.len() >= 2),
        r matches Err(e) ==> (e matches GqlApiError::InvalidInput(m) && m@ == too_few_dishes_message()),
{
    if input.merge_ids.len() < 2 {
        Err(GqlApiError::invalid_input(String::from_str("Merging needs at least two dish ids")))
    } else {
        Ok(())
    }
}

/// The ids among `ids` that are not in `existing`, in order.
pub open spec fn missing_spec(ids: Seq<u128>, existing: Seq<u128>) -> Seq<u128> {
    ids.filter(|id: u128| !existing.contains(id))
}

/// The ids among `ids` that are not in `existing`, in order.
pub fn missing_ids(ids: &Vec<u128>, existing: &Vec<u128>) -> (m: Vec<u128>)
    ensures
        m@ == missing_spec(ids@, existing@),
{
    let mut m: Vec<u128> = Vec::new();
    let n = ids.len();
    for i in 0..n
        invariant
            n == ids@.len(),
            m@ == ids@.take(i as int).filter(|id: u128| !existing@.contains(id)),
    {
        let id = ids[i];
        let found = crate::mutations::review::contains_id(existing, id);
        if !found {
            m.push(id);
        }
        proof {
            reveal(Seq::filter);
            assert(ids@.take(i + 1).drop_last() =~= ids@.take(i as int));
        }
    }
    assert(ids@.take(n as int) =~= ids@);
    m
}

/// `The following dish IDs were not found: [<ids>]`
pub open spec fn missing_dishes_message(missing: Seq<u128>) -> Seq<char> {
    "The following dish IDs were not found: "@ + uuid_list_string(missing)
}

/// Every dish to merge must exist: `existing` are the ids of `merge_ids` found in the
/// database. Where fewer were found than asked for, the error lists the ids that were
/// not found.
pub fn check_merge_targets(input: &MergeDishesInput, existing: &Vec<u128>) -> (r: Result<(), GqlApiError>)
    ensures
        (r is Ok) == (existing@.len() == input.merge_ids@.len()),
        r matches Err(e) ==> (e matches GqlApiError::NotFound(m) && m@ == missing_dishes_message(
            missing_spec(input.merge_ids@, existing@),
        )),
{
    if existing.len() != input.merge_ids.len() {
        let missing = missing_ids(&input.merge_ids, existing);
        let mut m = String::from_str("The following dish IDs were not found: ");
        let list = uuid_list_text(&missing);
        m.append(list.as_str());
        Err(GqlApiError::not_found(m))
    } else {
        Ok(())
    }
}

/// The dish that survives a merge.
#[derive(Debug)]
pub enum MergeTarget {
    /// A dish with the target name exists: it is kept, and its English name set.
    Update { id: u128, changeset: DbDishChangeset },
    /// No dish has the target name: a new dish is inserted.
    Insert(DbDish),
}

impl MergeTarget {
    /// The id of the surviving dish.
    pub open spec fn id_spec(self) -> u128 {
        match self {
            MergeTarget::Update { id, .. } => id,
            MergeTarget::Insert(d) => d.id,
        }
    }

    /// The id of the surviving dish.
    pub fn id(&self) -> (id: u128)
        ensures
            id == self.id_spec(),
    {
        match self {
            MergeTarget::Update { id, .. } => *id,
            MergeTarget::Insert(d) => d.id,
        }
    }
}

/// The surviving dish of a merge, given the dish that already has the target German
/// name (if any) and the id for a new dish.
pub fn merge_target(name_de: String, name_en: Option<String>, same_name: Option<DbDish>, new_id: u128) -> (t: MergeTarget)
    ensures
        same_name matches Some(d) ==> t == (MergeTarget::Update {
            id: d.id,
            changeset: DbDishChangeset { name_de: None, name_en: Some(name_en) },
        }),
        same_name is None ==> t == MergeTarget::Insert(DbDish { id: new_id, name_de, name_en }),
{
    match same_name {
        Some(d) => MergeTarget::Update { id: d.id, changeset: DbDishChangeset { name_de: None, name_en: Some(name_en) } },
        None => MergeTarget::Insert(DbDish { id: new_id, name_de, name_en }),
    }
}

/// The surviving dish of a merge, with a fresh id should a new dish be needed.
pub fn choose_merge_target(input: MergeDishesInput, same_name: Option<DbDish>) -> (r: (MergeTarget, Vec<u128>))
    ensures
        r.1 == input.merge_ids,
        same_name matches Some(d) ==> r.0 == (MergeTarget::Update {
            id: d.id,
            changeset: DbDishChangeset { name_de: None, name_en: Some(input.name_en) },
        }),
        same_name matches Some(d) ==> r.0.id_spec() == d.id,
        same_name is None ==> (r.0 matches MergeTarget::Insert(n) && n.name_de == input.name_de && n.name_en
            == input.name_en),
{
    let id = new_id();
    (merge_target(input.name_de, input.name_en, same_name, id), input.merge_ids)
}

/// The side dish links to insert for the survivor: one for each occurrence that had
/// one of the merged dishes as side dish (duplicates are skipped on insert).
pub fn relinked_side_dishes(links: &Vec<(u128, u128)>, target: u128) -> (r: Vec<(u128, u128)>)
    ensures
        r@ == links@.map_values(|l: (u128, u128)| (l.0, target)),
{
    let mut r: Vec<(u128, u128)> = Vec::new();
    let n = links.len();
    for i in 0..n
        invariant
            n == links@.len(),
            r@ == links@.take(i as int).map_values(|l: (u128, u128)| (l.0, target)),
    {
        r.push((links[i].0, target));
        assert(r@ =~= links@.take(i + 1).map_values(|l: (u128, u128)| (l.0, target)));
    }
    assert(links@.take(n as int) =~= links@);
    r
}

/// The merged dishes that a merge deletes: all but the survivor, in order.
pub open spec fn obsolete_ids(merge_ids: Seq<u128>, target: u128) -> Seq<u128> {
    merge_ids.filter(|id: u128| id != target)
}

/// The merged dishes to delete: all but the survivor, in order.
pub fn obsolete_dishes(merge_ids: &Vec<u128>, target: u128) -> (r: Vec<u128>)
    ensures
        r@ == obsolete_ids(merge_ids@, target),
{
    let mut r: Vec<u128> = Vec::new();
    let n = merge_ids.len();
    for i in 0..n
        invariant
            n == merge_ids@.len(),
            r@ == obsolete_ids(merge_ids@.take(i as int), target),
    {
        if merge_ids[i] != target {
            r.push(merge_ids[i]);
        }
        proof {
            reveal(Seq::filter);
            assert(merge_ids@.take(i + 1).drop_last() =~= merge_ids@.take(i as int));
        }
    }
    assert(merge_ids@.take(n as int) =~= merge_ids@);
    r
}

/// A merge deletes every merged dish except the survivor, and never the survivor.
pub proof fn lemma_merge_keeps_only_the_survivor(merge_ids: Seq<u128>, target: u128)
    ensures
        !obsolete_ids(merge_ids, target).contains(target),
        forall|id: u128| #[trigger] obsolete_ids(merge_ids, target).contains(id) <==> (merge_ids.contains(id) && id
            != target),
{
    broadcast use Seq::lemma_filter_contains_rev, Seq::lemma_filter_pred, Seq::lemma_filter_contains;
    let obsolete = obsolete_ids(merge_ids, target);
    assert forall|d: u128| #[trigger] obsolete.contains(d) <==> (merge_ids.contains(d) && d != target) by {
        if obsolete.contains(d) {
            let i = choose|i: int| 0 <= i < obsolete.len() && obsolete[i] == d;
            assert(obsolete[i] == d);
        }
        if merge_ids.contains(d) && d != target {
            let j = choose|j: int| 0 <= j < merge_ids.len() && merge_ids[j] == d;
            assert(merge_ids[j] == d);
        }
    }
}

/// The ids reported missing are exactly the requested ids that were not found.
pub proof fn lemma_missing_ids_exact(ids: Seq<u128>, existing: Seq<u128>)
    ensures
        forall|id: u128| #[trigger] missing_spec(ids, existing).contains(id) <==> (ids.contains(id) && !existing.contains(id)),
{
    let pred = |x: u128| !existing.contains(x);
    assert forall|id: u128| #[trigger] missing_spec(ids, existing).contains(id) <==> (ids.contains(id) && !existing.contains(id)) by {
        if missing_spec(ids, existing).contains(id) {
            let i = choose|i: int| 0 <= i < ids.filter(pred).len() && ids.filter(pred)[i] == id;
            ids.lemma_filter_pred(pred, i);
            ids.lemma_filter_contains_rev(pred, id);
        }
        if ids.contains(id) && !existing.contains(id) {
            let j = choose|j: int| 0 <= j < ids.len() && ids[j] == id;
            ids.lemma_filter_contains(pred, j);
        }
    }
}

/// The dish that a reference to `d` names after a merge of `merge_ids` into `target`.
pub open spec fn merged_dish(d: u128, merge_ids: Seq<u128>, target: u128) -> u128 {
    if merge_ids.contains(d) { target } else { d }
}

/// The links that a merge inserts: one to the survivor for each link to a merged dish
/// (`relinked_side_dishes`).
pub open spec fn relinked_links(links: Set<(u128, u128)>, merge_ids: Seq<u128>, target: u128) -> Set<(u128, u128)> {
    links.filter(|l: (u128, u128)| merge_ids.contains(l.1)).map(|l: (u128, u128)| (l.0, target))
}

/// The `(occurrence, side dish)` links after a merge, as the merge writes them: first
/// the relinked ones are inserted, then every link to one of `merge_ids` is deleted.
pub open spec fn links_after_merge(links: Set<(u128, u128)>, merge_ids: Seq<u128>, target: u128) -> Set<(u128, u128)> {
    links.union(relinked_links(links, merge_ids, target)).filter(|l: (u128, u128)| !merge_ids.contains(l.1))
}

/// A merge into a dish that is not among the merged ones redirects the side-dish
/// links: every link to a merged dish becomes a link of the same occurrence to the
/// survivor, and no other link changes. Where the survivor is one of the merged
/// dishes, the final delete also removes the links to it, so the survivor keeps no
/// side-dish links.
pub proof fn lemma_merge_redirects_side_dishes(links: Set<(u128, u128)>, merge_ids: Seq<u128>, target: u128)
    ensures
        !merge_ids.contains(target) ==> links_after_merge(links, merge_ids, target) == links.map(
            |l: (u128, u128)| (l.0, merged_dish(l.1, merge_ids, target)),
        ),
        merge_ids.contains(target) ==> links_after_merge(links, merge_ids, target) == links.filter(
            |l: (u128, u128)| !merge_ids.contains(l.1),
        ),
{
    let redirect = |l: (u128, u128)| (l.0, merged_dish(l.1, merge_ids, target));
    let after = links_after_merge(links, merge_ids, target);
    let moved_from = links.filter(|l: (u128, u128)| merge_ids.contains(l.1));
    let moved = relinked_links(links, merge_ids, target);
    assert(moved == moved_from.map(|l: (u128, u128)| (l.0, target)));
    assert(after == links.union(moved).filter(|l: (u128, u128)| !merge_ids.contains(l.1)));
    if !merge_ids.contains(target) {
        assert forall|x: (u128, u128)| #[trigger] after.contains(x) implies links.map(redirect).contains(x) by {
            if links.contains(x) {
                assert(!merge_ids.contains(x.1));
                assert(redirect(x) == x);
            } else {
                assert(moved.contains(x));
                let l = choose|l: (u128, u128)| moved_from.contains(l) && (l.0, target) == x;
                assert(redirect(l) == x);
            }
        }
        assert forall|x: (u128, u128)| links.map(redirect).contains(x) implies #[trigger] after.contains(x) by {
            let l = choose|l: (u128, u128)| links.contains(l) && redirect(l) == x;
            if merge_ids.contains(l.1) {
                assert(moved_from.contains(l));
                assert(x == (l.0, target));
                assert(moved.contains(x));
            } else {
                assert(x == l);
            }
        }
        assert(after =~= links.map(redirect));
    } else {
        assert forall|x: (u128, u128)| #[trigger] after.contains(x) implies links.filter(
            |l: (u128, u128)| !merge_ids.contains(l.1),
        ).contains(x) by {
            if !links.contains(x) {
                assert(moved.contains(x));
                let l = choose|l: (u128, u128)| moved_from.contains(l) && (l.0, target) == x;
                assert(x.1 == target);
            }
        }
        assert(after =~= links.filter(|l: (u128, u128)| !merge_ids.contains(l.1)));
    }
}

} // verus!
