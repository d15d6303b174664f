//! The events that commands emit and that the dispatcher records.

use vstd::prelude::*;
use crate::data::{Bid, Comment};
use crate::ids::{ProductId, UserId};

verus! {

/// What a `BidCreated` event carries.
#[derive(Clone, Debug, PartialEq, Eq)]
pub struct BidCreatedPayload {
    pub bid: Bid,
}

/// What a `CommentCreated` event carries.
#[derive(Clone, Debug, PartialEq, Eq)]
pub struct CommentCreatedPayload {
    pub comment: Comment,
}

/// What a `ProductCreated` event carries.
#[derive(Clone, Debug, PartialEq, Eq)]
pub struct ProductCreatedData {
    pub id: ProductId,
    pub creator_id: UserId,
    pub name: String,
}

/// Something that happened on the platform.
#[derive(Clone, Debug, PartialEq, Eq)]
pub enum Event {
    BidCreated { payload: BidCreatedPayload },
    CommentCreated { payload: CommentCreatedPayload },
    ProductCreated { data: ProductCreatedData },
}

/// The name by which an event's kind is written (its `type` tag).
pub open spec fn event_type_name(e: Event) -> Seq<char> {
    match e {
        Event::BidCreated { .. } => "bid_created"@,
        Event::CommentCreated { .. } => "comment_created"@,
        Event::ProductCreated { .. } => "product_created"@,
    }
}

/// The events of a command's or dispatcher's result, as a sequence.
pub open spec fn events_view<E>(r: Result<Vec<Event>, E>) -> Result<Seq<Event>, E> {
    match r {
        Ok(events) => Ok(events@),
        Err(e) => Err(e),
    }
}

impl Event {
    /// The event that a bid was created.
    pub fn bid_created(bid: Bid) -> (e: Event)
        ensures
            e == (Event::BidCreated { payload: BidCreatedPayload { bid } }),
    {
        Event::BidCreated { payload: BidCreatedPayload { bid } }
    }

    /// The event that a comment was created.
    pub fn comment_created(comment: Comment) -> (e: Event)
        ensures
            e == (Event::CommentCreated { payload: CommentCreatedPayload { comment } }),
    {
        Event::CommentCreated { payload: CommentCreatedPayload { comment } }
    }

    /// The event that a user created a product with the given id and name.
    pub fn product_created(id: ProductId, creator_id: UserId, name: String) -> (e: Event)
        ensures
            e == (Event::ProductCreated { data: ProductCreatedData { id, creator_id, name } }),
    {
        Event::ProductCreated { data: ProductCreatedData { id, creator_id, name } }
    }

    /// The name of the event's kind, as its `type` tag is written.
    pub fn kind(&self) -> (name: &'static str)
        ensures
            name@ == event_type_name(*self),
    {
        match self {
            Event::BidCreated { .. } => "bid_created",
            Event::CommentCreated { .. } => "comment_created",
            Event::ProductCreated { .. } => "product_created",
        }
    }
}

} // verus!
