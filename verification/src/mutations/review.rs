//! Creating, updating, approving and deleting reviews and their images.
use vstd::prelude::*;

use crate::error::{entity_not_found_message, GqlApiError};
use crate::ids::{new_id, uuid_string, uuid_text};
use crate::image_service::{describe_spec, ImageServiceApiError};
use crate::models::{DbImage, DbReview, DbReviewChangeset, Duplicate};
use crate::time::{now, Timestamp};

verus! {

/// An image attached to a review.
#[derive(Debug, Clone, Copy, PartialEq, Eq, Structural)]
pub struct ImageInput {
    pub id: u128,
    /// Rotation to apply to the image, if any.
    pub rotation: Option<i64>,
}

/// Input of `createReview`.
#[derive(Debug)]
pub struct CreateReviewInput {
    pub occurrence: u128,
    pub display_name: Option<String>,
    pub stars: i64,
    pub text: Option<String>,
    pub images: Option<Vec<ImageInput>>,
}

/// Input of `updateReview`.
#[derive(Debug)]
pub struct UpdateReviewInput {
    pub id: u128,
    pub occurrence: Option<u128>,
    pub display_name: Option<String>,
    pub stars: Option<i64>,
    pub text: Option<String>,
    /// If present, the review is approved (`true`) or its approval is withdrawn.
    pub approved: Option<bool>,
}

/// Input of `deleteReview`.
#[derive(Debug, Clone, Copy)]
pub struct DeleteReviewInput {
    pub id: u128,
}

/// Input of `addImagesToReview`.
#[derive(Debug)]
pub struct AddImagesToReviewInput {
    pub review: u128,
    pub images: Vec<ImageInput>,
}

/// Input of `removeImagesFromReview`.
#[derive(Debug)]
pub struct RemoveImagesFromReviewInput {
    pub review: u128,
    pub images: Vec<u128>,
}

/// Whether an update input changes any column of the review.
pub open spec fn update_has_changes(value: UpdateReviewInput) -> bool {
    value.display_name is Some || value.stars is Some || value.text is Some || value.occurrence is Some
        || value.approved is Some
}

/// The columns that an update writes when it is made at `now`: every given field,
/// the update time only if some field is given, and the acceptance time set to `now`
/// on approval and cleared when the approval is withdrawn.
pub open spec fn review_changeset_spec(value: UpdateReviewInput, now: Timestamp) -> DbReviewChangeset {
    DbReviewChangeset {
        display_name: value.display_name,
        stars: value.stars,
        text: value.text,
        occurrence: value.occurrence,
        updated_at: if update_has_changes(value) { Some(now) } else { None },
        accepted_at: match value.approved {
            None => None,
            Some(true) => Some(Some(now)),
            Some(false) => Some(None),
        },
        created_at: None,
    }
}

impl DbReviewChangeset {
    /// The columns that an update made at `now` writes.
    pub fn from_update(value: UpdateReviewInput, now: Timestamp) -> (c: DbReviewChangeset)
        ensures
            c == review_changeset_spec(value, now),
    {
        let has_updates = value.display_name.is_some() || value.stars.is_some() || value.text.is_some()
            || value.occurrence.is_some() || value.approved.is_some();
        let updated_at = if has_updates { Some(now) } else { None };
        let accepted_at = match value.approved {
            None => None,
            Some(true) => Some(Some(now)),
            Some(false) => Some(None),
        };
        DbReviewChangeset {
            display_name: value.display_name,
            stars: value.stars,
            text: value.text,
            occurrence: value.occurrence,
            updated_at,
            accepted_at,
            created_at: None,
        }
    }

    /// The columns that an update made now writes.
    pub fn from(value: UpdateReviewInput) -> (c: DbReviewChangeset)
        ensures
            exists|t: Timestamp| t.wf() && c == review_changeset_spec(value, t),
    {
        let t = now();
        DbReviewChangeset::from_update(value, t)
    }
}

/// How an update changes the approval of a review.
#[derive(Debug, Clone, Copy, PartialEq, Eq, Structural)]
pub enum ApprovalTransition {
    /// The approval stays as it is.
    Unchanged,
    /// A review that was not approved is approved.
    FirstApproval,
    /// The approval of an approved review is withdrawn.
    Unapproval,
}

/// The approval transition of an update with `approved` on a review accepted at
/// `old_accepted_at`.
pub open spec fn approval_transition_spec(approved: Option<bool>, old_accepted_at: Option<Timestamp>) -> ApprovalTransition {
    if approved == Some(true) && old_accepted_at is None {
        ApprovalTransition::FirstApproval
    } else if approved == Some(false) && old_accepted_at is Some {
        ApprovalTransition::Unapproval
    } else {
        ApprovalTransition::Unchanged
    }
}

/// The approval transition of an update with `approved` on a review accepted at
/// `old_accepted_at`.
pub fn approval_transition(approved: Option<bool>, old_accepted_at: Option<Timestamp>) -> (t: ApprovalTransition)
    ensures
        t == approval_transition_spec(approved, old_accepted_at),
{
    let first_approval = approved == Some(true) && old_accepted_at.is_none();
    let unapproval = approved == Some(false) && old_accepted_at.is_some();
    if first_approval {
        ApprovalTransition::FirstApproval
    } else if unapproval {
        ApprovalTransition::Unapproval
    } else {
        ApprovalTransition::Unchanged
    }
}

/// The changeset with a re-approval of an already approved review removed, so that
/// the original acceptance time is kept.
pub open spec fn keep_first_acceptance_spec(c: DbReviewChangeset, old_accepted_at: Option<Timestamp>) -> DbReviewChangeset {
    if (c.accepted_at matches Some(Some(_))) && old_accepted_at is Some {
        DbReviewChangeset { accepted_at: None, ..c }
    } else {
        c
    }
}

/// What an update of a review does.
#[derive(Debug)]
pub struct ReviewUpdatePlan {
    /// The columns to write.
    pub changeset: DbReviewChangeset,
    /// How the approval changes (this decides which image-service call follows).
    pub transition: ApprovalTransition,
}

/// Plans the update of a review as it is before the update (`current`), made at
/// `now`.
pub fn plan_review_update(input: UpdateReviewInput, current: &DbReview, now: Timestamp) -> (p: ReviewUpdatePlan)
    ensures
        p.changeset == keep_first_acceptance_spec(review_changeset_spec(input, now), current.accepted_at),
        p.transition == approval_transition_spec(input.approved, current.accepted_at),
{
    let approved = input.approved;
    let mut changeset = DbReviewChangeset::from_update(input, now);
    let reapproval = match changeset.accepted_at {
        Some(Some(_)) => true,
        _ => false,
    };
    if reapproval && current.accepted_at.is_some() {
        changeset.accepted_at = None;
    }
    ReviewUpdatePlan { changeset, transition: approval_transition(approved, current.accepted_at) }
}

/// The review after the update: the row the update returned, or the row as it was
/// where the update had nothing to write.
pub fn updated_review(updated: Option<DbReview>, current: &DbReview) -> (r: DbReview)
    ensures
        updated matches Some(u) ==> r == u,
        updated is None ==> r == *current,
{
    match updated {
        Some(u) => u,
        None => current.duplicate(),
    }
}

/// The acceptance time to write back when the image service refuses the
/// (un)approval of the review's images, restoring the state before the update:
/// nothing to undo without a transition.
pub fn rollback_accepted_at(transition: ApprovalTransition, old_accepted_at: Option<Timestamp>) -> (r: Option<Option<Timestamp>>)
    ensures
        r == rollback_spec(transition, old_accepted_at),
{
    match transition {
        ApprovalTransition::FirstApproval => Some(None),
        ApprovalTransition::Unapproval => Some(old_accepted_at),
        ApprovalTransition::Unchanged => None,
    }
}

/// The acceptance time that undoing a transition writes: cleared after a first
/// approval, the old time after an unapproval, nothing without a transition.
pub open spec fn rollback_spec(transition: ApprovalTransition, old_accepted_at: Option<Timestamp>) -> Option<Option<Timestamp>> {
    match transition {
        ApprovalTransition::FirstApproval => Some(None),
        ApprovalTransition::Unapproval => Some(old_accepted_at),
        ApprovalTransition::Unchanged => None,
    }
}

/// Whether subscribers are told that the review was accepted: only on its first
/// approval.
pub fn announces_acceptance(transition: ApprovalTransition) -> (b: bool)
    ensures
        b == (transition == ApprovalTransition::FirstApproval),
{
    match transition {
        ApprovalTransition::FirstApproval => true,
        _ => false,
    }
}

/// A new review as created at `now` with the given id: not accepted yet, created and
/// updated at `now`.
pub fn new_review(input: CreateReviewInput, id: u128, now: Timestamp) -> (r: (DbReview, Option<Vec<ImageInput>>))
    ensures
        r.0.id == id,
        r.0.occurrence == input.occurrence,
        r.0.display_name == input.display_name,
        r.0.stars == input.stars,
        r.0.text == input.text,
        r.0.created_at == now,
        r.0.updated_at == now,
        r.0.accepted_at is None,
        r.1 == input.images,
{
    let review = DbReview {
        id,
        occurrence: input.occurrence,
        display_name: input.display_name,
        stars: input.stars,
        text: input.text,
        updated_at: now,
        created_at: now,
        accepted_at: None,
    };
    (review, input.images)
}

/// A new review with a fresh id, created now.
pub fn create_review_row(input: CreateReviewInput) -> (r: (DbReview, Option<Vec<ImageInput>>))
    ensures
        r.0.occurrence == input.occurrence,
        r.0.display_name == input.display_name,
        r.0.stars == input.stars,
        r.0.text == input.text,
        r.0.created_at == r.0.updated_at,
        r.0.created_at.wf(),
        r.0.accepted_at is None,
        r.1 == input.images,
{
    let t = now();
    new_review(input, new_id(), t)
}

/// The ids of the given images, in order.
pub fn image_ids(images: &Vec<ImageInput>) -> (ids: Vec<u128>)
    ensures
        ids@ == images@.map_values(|i: ImageInput| i.id),
{
    let mut ids: Vec<u128> = Vec::new();
    let n = images.len();
    for i in 0..n
        invariant
            n == images@.len(),
            ids@ == images@.take(i as int).map_values(|i: ImageInput| i.id),
    {
        ids.push(images[i].id);
        assert(ids@ =~= images@.take(i + 1).map_values(|i: ImageInput| i.id));
    }
    assert(images@.take(n as int) =~= images@);
    ids
}

/// Whether `id` occurs in `ids`.
pub fn contains_id(ids: &Vec<u128>, id: u128) -> (b: bool)
    ensures
        b == ids@.contains(id),
{
    let n = ids.len();
    for i in 0..n
        invariant
            n == ids@.len(),
            forall|j: int| 0 <= j < i ==> ids@[j] != id,
    {
        if ids[i] == id {
            return true;
        }
    }
    false
}

/// The rotations to apply: those of the images that carry one and that the image
/// service accepted, in the order of the input.
pub open spec fn rotations_spec(images: Seq<ImageInput>, submitted: Seq<u128>) -> Seq<(u128, i64)>
    decreases images.len(),
{
    if images.len() == 0 {
        Seq::empty()
    } else {
        let rest = rotations_spec(images.drop_last(), submitted);
        let img = images.last();
        match img.rotation {
            Some(r) => if submitted.contains(img.id) { rest.push((img.id, r)) } else { rest },
            None => rest,
        }
    }
}

/// The rotations to apply after submitting images.
pub fn rotations_to_apply(images: &Vec<ImageInput>, submitted: &Vec<u128>) -> (r: Vec<(u128, i64)>)
    ensures
        r@ == rotations_spec(images@, submitted@),
{
    let mut r: Vec<(u128, i64)> = Vec::new();
    let n = images.len();
    for i in 0..n
        invariant
            n == images@.len(),
            r@ == rotations_spec(images@.take(i as int), submitted@),
    {
        let img = images[i];
        match img.rotation {
            Some(angle) => {
                if contains_id(submitted, img.id) {
                    r.push((img.id, angle));
                }
            },
            None => {},
        }
        assert(images@.take(i + 1).drop_last() =~= images@.take(i as int));
    }
    assert(images@.take(n as int) =~= images@);
    r
}

/// The rows that attach the submitted images to a review, in order.
pub fn image_rows(submitted: &Vec<u128>, review: u128) -> (rows: Vec<DbImage>)
    ensures
        rows@ == submitted@.map_values(|id: u128| DbImage { id, review }),
{
    let mut rows: Vec<DbImage> = Vec::new();
    let n = submitted.len();
    for i in 0..n
        invariant
            n == submitted@.len(),
            rows@ == submitted@.take(i as int).map_values(|id: u128| DbImage { id, review }),
    {
        rows.push(DbImage { id: submitted[i], review });
        assert(rows@ =~= submitted@.take(i + 1).map_values(|id: u128| DbImage { id, review }));
    }
    assert(submitted@.take(n as int) =~= submitted@);
    rows
}

/// The images of a deleted review that the image service is asked to delete: all of
/// them, in order; a review without images makes no request.
pub fn images_to_delete(image_ids: Vec<u128>) -> (r: Option<Vec<u128>>)
    ensures
        r is Some <==> image_ids@.len() > 0,
        r matches Some(v) ==> v@ == image_ids@,
{
    if image_ids.len() == 0 {
        None
    } else {
        Some(image_ids)
    }
}

/// Whether a delete statement removed the review (or occurrence): exactly one row.
pub fn deleted_one(amount: usize) -> (b: bool)
    ensures
        b == (amount == 1),
{
    amount == 1
}

/// The review that the review loader returned for a review id, or the "not found"
/// error for that id.
pub fn loaded_review(loaded: Option<Vec<DbReview>>, id: u128) -> (r: Result<DbReview, GqlApiError>)
    ensures
        (loaded matches Some(v) && v@.len() > 0) ==> r == Ok::<DbReview, GqlApiError>(loaded->0@[0]),
        !(loaded matches Some(v) && v@.len() > 0) ==> (r matches Err(GqlApiError::NotFound(m)) && m@
            == entity_not_found_message("Review"@, id)),
{
    match loaded {
        Some(mut v) => {
            if v.len() > 0 {
                Ok(v.swap_remove(0))
            } else {
                Err(GqlApiError::entity_not_found("Review", id))
            }
        },
        None => Err(GqlApiError::entity_not_found("Review", id)),
    }
}

/// What has happened since the last step of an update of a review, after the review
/// was written.
#[derive(Debug)]
pub enum ReviewUpdateEvent {
    /// The ids of the review's images were loaded.
    ImagesLoaded(Vec<u128>),
    /// The image service answered the (un)approval of the review's images.
    ImageServiceAnswered(Result<(), ImageServiceApiError>),
}

/// What an update of a review does next.
#[derive(Debug)]
pub enum ReviewUpdateAction {
    /// Load the ids of the review's images.
    LoadImages,
    /// Ask the image service to approve these images.
    ApproveImages(Vec<u128>),
    /// Ask the image service to withdraw the approval of these images.
    UnapproveImages(Vec<u128>),
    /// Answer with the updated review, and tell subscribers that it was accepted if
    /// `announce` holds.
    Finish { announce: bool },
    /// Write `accepted_at` back into the review (a failure of that write is ignored)
    /// and answer with `error`.
    RollBack { accepted_at: Option<Timestamp>, error: GqlApiError },
}

/// An update of a review after its row was written: which review, how its approval
/// changed, and when it was accepted before.
#[derive(Debug, Clone, Copy)]
pub struct ReviewUpdateFlow {
    pub id: u128,
    pub transition: ApprovalTransition,
    pub old_accepted_at: Option<Timestamp>,
}

/// The image-service action of an approval transition, as it appears in messages.
pub open spec fn image_action_word(t: ApprovalTransition) -> Seq<char> {
    if t == ApprovalTransition::FirstApproval { "approve"@ } else { "unapprove"@ }
}

/// `Failed to <action> images for review with ID '<id>'`
pub open spec fn image_failure_message(action: Seq<char>, id: u128) -> Seq<char> {
    "Failed to "@ + action + " images for review with ID '"@ + uuid_string(id) + "'"@
}

/// The action that follows `event` in the update `flow`:
/// - loaded images are approved after a first approval and have their approval
///   withdrawn after an unapproval; without images, or without a transition, the
///   update finishes;
/// - an image service that agrees finishes the update;
/// - an image service that refuses makes the update write back the acceptance time
///   of before and answer with an internal error that names the review;
/// - subscribers are told of an acceptance only when the update finishes after a
///   first approval.
pub open spec fn follows(flow: ReviewUpdateFlow, event: ReviewUpdateEvent, a: ReviewUpdateAction) -> bool {
    let announce = flow.transition == ApprovalTransition::FirstApproval;
    match event {
        ReviewUpdateEvent::ImagesLoaded(ids) => if ids@.len() == 0 || flow.transition == ApprovalTransition::Unchanged {
            a == ReviewUpdateAction::Finish { announce }
        } else if flow.transition == ApprovalTransition::FirstApproval {
            a == ReviewUpdateAction::ApproveImages(ids)
        } else {
            a == ReviewUpdateAction::UnapproveImages(ids)
        },
        ReviewUpdateEvent::ImageServiceAnswered(Ok(())) => a == ReviewUpdateAction::Finish { announce },
        ReviewUpdateEvent::ImageServiceAnswered(Err(e)) => if flow.transition == ApprovalTransition::Unchanged {
            a == ReviewUpdateAction::Finish { announce: false }
        } else {
            &&& a matches ReviewUpdateAction::RollBack { accepted_at, error }
            &&& Some(accepted_at) == rollback_spec(flow.transition, flow.old_accepted_at)
            &&& error matches GqlApiError::Internal { message, underlying_error }
            &&& message@ == image_failure_message(image_action_word(flow.transition), flow.id)
            &&& underlying_error@ == describe_spec(e)
        },
    }
}

impl ReviewUpdateFlow {
    /// The first action after the review was written: without a transition the update
    /// finishes (no image-service call, no announcement); otherwise the review's
    /// images are loaded.
    pub fn start(&self) -> (a: ReviewUpdateAction)
        ensures
            self.transition == ApprovalTransition::Unchanged ==> a == (ReviewUpdateAction::Finish { announce: false }),
            self.transition != ApprovalTransition::Unchanged ==> a == ReviewUpdateAction::LoadImages,
    {
        match self.transition {
            ApprovalTransition::Unchanged => ReviewUpdateAction::Finish { announce: false },
            _ => ReviewUpdateAction::LoadImages,
        }
    }

    /// The action that follows an event.
    pub fn step(&self, event: ReviewUpdateEvent) -> (a: ReviewUpdateAction)
        ensures
            follows(*self, event, a),
    {
        let announce = announces_acceptance(self.transition);
        match event {
            ReviewUpdateEvent::ImagesLoaded(ids) => {
                if ids.len() == 0 {
                    ReviewUpdateAction::Finish { announce }
                } else {
                    match self.transition {
                        ApprovalTransition::FirstApproval => ReviewUpdateAction::ApproveImages(ids),
                        ApprovalTransition::Unapproval => ReviewUpdateAction::UnapproveImages(ids),
                        ApprovalTransition::Unchanged => ReviewUpdateAction::Finish { announce },
                    }
                }
            },
            ReviewUpdateEvent::ImageServiceAnswered(Ok(())) => ReviewUpdateAction::Finish { announce },
            ReviewUpdateEvent::ImageServiceAnswered(Err(e)) => {
                let (accepted_at, action) = match self.transition {
                    ApprovalTransition::Unchanged => {
                        return ReviewUpdateAction::Finish { announce: false };
                    },
                    ApprovalTransition::FirstApproval => (None, "approve"),
                    ApprovalTransition::Unapproval => (self.old_accepted_at, "unapprove"),
                };
                proof {
                    reveal_strlit("approve");
                    reveal_strlit("unapprove");
                }
                let mut m = String::from_str("Failed to ");
                m.append(action);
                m.append(" images for review with ID '");
                let t = uuid_text(self.id);
                m.append(t.as_str());
                m.append("'");
                let d = e.describe();
                ReviewUpdateAction::RollBack { accepted_at, error: GqlApiError::internal(m, d) }
            },
        }
    }
}

// ---------------------------------------------------------------------------
// Laws

/// Approving an already approved review keeps its first acceptance time: the planned
/// changeset does not write `accepted_at`.
pub proof fn lemma_reapproval_keeps_acceptance(input: UpdateReviewInput, old: Timestamp, now: Timestamp)
    requires
        input.approved == Some(true),
    ensures
        keep_first_acceptance_spec(review_changeset_spec(input, now), Some(old)).accepted_at is None,
        approval_transition_spec(input.approved, Some(old)) == ApprovalTransition::Unchanged,
{
}

/// An update writes the update time exactly when it changes some field, and it never
/// writes the creation time.
pub proof fn lemma_update_time_only_with_changes(input: UpdateReviewInput, now: Timestamp)
    ensures
        (review_changeset_spec(input, now).updated_at is Some) == update_has_changes(input),
        review_changeset_spec(input, now).created_at is None,
{
}

/// Undoing a refused (un)approval writes back exactly the acceptance time that the
/// review had before the update.
pub proof fn lemma_rollback_restores_acceptance(approved: Option<bool>, old_accepted_at: Option<Timestamp>)
    requires
        approval_transition_spec(approved, old_accepted_at) != ApprovalTransition::Unchanged,
    ensures
        rollback_spec(approval_transition_spec(approved, old_accepted_at), old_accepted_at) == Some(old_accepted_at),
{
}

/// After a planned update, the review is accepted exactly when the input approves it
/// or, without an approval decision, when it was accepted before.
pub proof fn lemma_acceptance_after_update(input: UpdateReviewInput, old_accepted_at: Option<Timestamp>, now: Timestamp)
    ensures
        ({
            let c = keep_first_acceptance_spec(review_changeset_spec(input, now), old_accepted_at);
            let after = match c.accepted_at {
                Some(a) => a,
                None => old_accepted_at,
            };
            &&& (after is Some) == (input.approved == Some(true) || (input.approved is None && old_accepted_at is Some))
            &&& (old_accepted_at is Some && input.approved != Some(false)) ==> after == old_accepted_at
        }),
{
}

/// An update made at `now` writes every given field of the review as given, leaves
/// the absent ones alone, stamps the update time `now` exactly when some field is
/// given, sets the acceptance time to `now` on approval and clears it when the
/// approval is withdrawn.
pub proof fn lemma_review_update_writes_given_fields(input: UpdateReviewInput, now: Timestamp)
    ensures
        review_changeset_spec(input, now).display_name == input.display_name,
        review_changeset_spec(input, now).stars == input.stars,
        review_changeset_spec(input, now).text == input.text,
        review_changeset_spec(input, now).occurrence == input.occurrence,
        (input.display_name is Some || input.stars is Some || input.text is Some || input.occurrence is Some
            || input.approved is Some) ==> review_changeset_spec(input, now).updated_at == Some(now),
        (input.display_name is None && input.stars is None && input.text is None && input.occurrence is None
            && input.approved is None) ==> review_changeset_spec(input, now).updated_at is None,
        input.approved == Some(true) ==> review_changeset_spec(input, now).accepted_at == Some(Some(now)),
        input.approved == Some(false) ==> review_changeset_spec(input, now).accepted_at == Some(None::<Timestamp>),
        input.approved is None ==> review_changeset_spec(input, now).accepted_at is None,
        review_changeset_spec(input, now).created_at is None,
{
}

} // verus!
