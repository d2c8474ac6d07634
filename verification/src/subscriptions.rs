//! Review events for GraphQL subscriptions.
use vstd::prelude::*;

use crate::queries::GqlReview;

verus! {

/// How many events the broadcast channel keeps for a subscriber that falls behind;
/// older events are dropped for it.
pub const REVIEW_CHANNEL_CAPACITY: usize = 1024;

/// An event about a review.
#[derive(Debug, Clone)]
pub enum ReviewEvent {
    /// A review was created.
    Created(GqlReview),
    /// A review was approved for the first time.
    Accepted(GqlReview),
}

/// What `reviewCreated` yields for a received event.
pub open spec fn created_item_spec(received: Option<ReviewEvent>) -> Option<GqlReview> {
    match received {
        Some(ReviewEvent::Created(g)) => Some(g),
        _ => None,
    }
}

/// What `reviewAccepted` yields for a received event.
pub open spec fn accepted_item_spec(received: Option<ReviewEvent>) -> Option<GqlReview> {
    match received {
        Some(ReviewEvent::Accepted(g)) => Some(g),
        _ => None,
    }
}

/// What a subscription stream yields for the events it received, in order (`None`
/// for events that it missed by lagging): the item that `accepted_item` (for
/// `reviewAccepted`) or `created_item` (for `reviewCreated`) gives for each, skipping
/// the events for which it gives none.
pub open spec fn stream_items(received: Seq<Option<ReviewEvent>>, accepted: bool) -> Seq<GqlReview>
    decreases received.len(),
{
    if received.len() == 0 {
        Seq::empty()
    } else {
        let rest = stream_items(received.drop_last(), accepted);
        let item = if accepted { accepted_item_spec(received.last()) } else { created_item_spec(received.last()) };
        match item {
            Some(g) => rest.push(g),
            None => rest,
        }
    }
}

/// The reviews of the events of one kind (created or accepted), in the order of the
/// events.
pub open spec fn reviews_of_kind(events: Seq<ReviewEvent>, accepted: bool) -> Seq<GqlReview>
    decreases events.len(),
{
    if events.len() == 0 {
        Seq::empty()
    } else {
        let rest = reviews_of_kind(events.drop_last(), accepted);
        match events.last() {
            ReviewEvent::Created(g) => if accepted { rest } else { rest.push(g) },
            ReviewEvent::Accepted(g) => if accepted { rest.push(g) } else { rest },
        }
    }
}

/// The events that a subscriber received, without the ones it missed.
pub open spec fn delivered(received: Seq<Option<ReviewEvent>>) -> Seq<ReviewEvent>
    decreases received.len(),
{
    if received.len() == 0 {
        Seq::empty()
    } else {
        let rest = delivered(received.drop_last());
        match received.last() {
            Some(e) => rest.push(e),
            None => rest,
        }
    }
}

/// A subscription yields exactly the reviews of its kind among the events it
/// received, in the order they were published: `reviewCreated` the created reviews,
/// `reviewAccepted` the accepted ones; events of the other kind, and events missed
/// by lagging, yield nothing. (Which events a subscriber receives, and in which
/// order, is the broadcast channel's part.)
pub proof fn lemma_subscription_streams_pick_their_kind(received: Seq<Option<ReviewEvent>>, accepted: bool)
    ensures
        stream_items(received, accepted) == reviews_of_kind(delivered(received), accepted),
    decreases received.len(),
{
    if received.len() > 0 {
        lemma_subscription_streams_pick_their_kind(received.drop_last(), accepted);
        match received.last() {
            Some(e) => {
                assert(delivered(received).drop_last() =~= delivered(received.drop_last()));
            },
            None => {},
        }
    }
}

/// The subscriptions to review events.
#[derive(Debug, Default)]
pub struct ReviewSubscriptions;

impl ReviewSubscriptions {
    /// What `reviewCreated` yields for a received event (`None` stands for an event
    /// that a lagging subscriber missed): only created reviews.
    pub fn created_item(received: Option<ReviewEvent>) -> (r: Option<GqlReview>)
        ensures
            received matches Some(ReviewEvent::Created(g)) ==> r == Some(g),
            !(received matches Some(ReviewEvent::Created(_))) ==> r is None,
            r == created_item_spec(received),
    {
        match received {
            Some(ReviewEvent::Created(review)) => Some(review),
            _ => None,
        }
    }

    /// What `reviewAccepted` yields for a received event (`None` stands for an event
    /// that a lagging subscriber missed): only accepted reviews.
    pub fn accepted_item(received: Option<ReviewEvent>) -> (r: Option<GqlReview>)
        ensures
            received matches Some(ReviewEvent::Accepted(g)) ==> r == Some(g),
            !(received matches Some(ReviewEvent::Accepted(_))) ==> r is None,
            r == accepted_item_spec(received),
    {
        match received {
            Some(ReviewEvent::Accepted(review)) => Some(review),
            _ => None,
        }
    }
}

/// The root of the GraphQL subscriptions.
#[derive(Debug, Default)]
pub struct Subscription(pub ReviewSubscriptions);

} // verus!
