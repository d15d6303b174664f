//! Bidding on an auction.

use vstd::prelude::*;
use async_graphql::dynamic::{InputObject, Object};
use crate::data::{Amount, Auction, Bid};
use crate::event::{event_type_name, events_view, BidCreatedPayload, Event};
use crate::graphql::{
    add_non_null_field, add_parent_value_field, has_field, input_object_fields, input_object_name,
    new_input_object, new_object, object_fields, object_name, scalar_id, scalar_int,
};
use crate::ids::{is_random_v4, AuctionId, BidId, ProductId, UserId};

verus! {

/// A request to bid `amount` on an auction.
#[derive(Clone, Copy, Debug, PartialEq, Eq, Structural)]
pub struct BidInput {
    pub auction_id: AuctionId,
    pub bidder_id: UserId,
    pub amount: Amount,
}

impl BidInput {
    /// The name of the GraphQL input type.
    pub fn graphql_name() -> (name: &'static str)
        ensures
            name@ == "BidInput"@,
    {
        "BidInput"
    }

    /// The GraphQL input type: `auctionId: ID!`, `bidderId: ID!`, `amount: Int!`.
    pub fn to_input() -> (o: InputObject)
        ensures
            input_object_name(o) == "BidInput"@,
            input_object_fields(o) == seq![
                ("auctionId"@, "ID!"@),
                ("bidderId"@, "ID!"@),
                ("amount"@, "Int!"@),
            ],
    {
        proof {
            reveal_strlit("auctionId");
            reveal_strlit("bidderId");
            reveal_strlit("amount");
            reveal_strlit("ID");
            reveal_strlit("ID!");
            reveal_strlit("Int");
            reveal_strlit("Int!");
        }
        let o = new_input_object(Self::graphql_name());
        let o = add_non_null_field(o, "auctionId", scalar_id());
        assert(!has_field(input_object_fields(o), "bidderId"@)) by {
            assert("auctionId"@.len() != "bidderId"@.len());
        }
        let o = add_non_null_field(o, "bidderId", scalar_id());
        assert(!has_field(input_object_fields(o), "amount"@)) by {
            assert("auctionId"@.len() != "amount"@.len());
            assert("bidderId"@.len() != "amount"@.len());
        }
        let o = add_non_null_field(o, "amount", scalar_int());
        assert("ID"@.push('!') =~= "ID!"@);
        assert("Int"@.push('!') =~= "Int!"@);
        o
    }
}

/// The result of a bid: the bid that was recorded.
#[derive(Clone, Copy, Debug, PartialEq, Eq, Structural)]
pub struct BidResult {
    pub bid: Bid,
}

impl BidResult {
    /// The name of the GraphQL object type.
    pub fn graphql_name() -> (name: &'static str)
        ensures
            name@ == "BidResult"@,
    {
        "BidResult"
    }

    /// The GraphQL object type: one field, `id: ID!`, that resolves to the
    /// result itself.
    pub fn to_object() -> (o: Object)
        ensures
            object_name(o) == "BidResult"@,
            object_fields(o) == seq![("id"@, "ID!"@)],
    {
        proof {
            reveal_strlit("ID");
            reveal_strlit("ID!");
        }
        let o = new_object(Self::graphql_name());
        let o = add_parent_value_field(o, "id", scalar_id());
        assert("ID"@.push('!') =~= "ID!"@);
        o
    }
}

/// Why a bid failed.
#[derive(Clone, Copy, Debug, PartialEq, Eq, Structural)]
pub enum Error {
    AuctionNotFound(AuctionId),
    AuctionNotReady(AuctionId),
    AuctionNotStarted(AuctionId),
    AuctionExpired(AuctionId),
    InvalidAmount(Amount),
    NotCreated,
    ProductNotFound(ProductId),
}

/// The state a bid is decided on: the auction bid on, if it was found, and
/// the bid to record, if one was made.
#[derive(Clone, Copy, Debug, PartialEq, Eq, Structural)]
pub struct BidCommand {
    pub auction: Option<Auction>,
    pub bid: Option<Bid>,
}

/// The bid that `input` makes, under the identifier `id`.
pub open spec fn bid_for(id: BidId, input: BidInput) -> Bid {
    Bid {
        id,
        created: None,
        updated: None,
        auction_id: input.auction_id,
        bidder_id: input.bidder_id,
        concurrent_amount: None,
        amount: input.amount,
    }
}

/// The events that handling a bid command gives: the creation of its bid, or
/// `NotCreated` where it has none.
pub open spec fn handled(cmd: BidCommand) -> Result<Seq<Event>, Error> {
    match cmd.bid {
        Some(bid) => Ok(seq![Event::BidCreated { payload: BidCreatedPayload { bid } }]),
        None => Err(Error::NotCreated),
    }
}

/// The result that a single event stands for.
pub open spec fn result_of_event(e: Event) -> Option<BidResult> {
    match e {
        Event::BidCreated { payload } => Some(BidResult { bid: payload.bid }),
        _ => None,
    }
}

/// The result that recorded events stand for: the events folded from the
/// first, each step replacing what came before by what the event stands for.
pub open spec fn applied(events: Seq<Event>) -> Option<BidResult> {
    events.fold_left(None, |acc: Option<BidResult>, e: Event| result_of_event(e))
}

/// What a bid request answers, given what dispatching its events gave.
pub open spec fn outcome<E>(dispatched: Result<Seq<Event>, E>) -> Result<BidResult, Error> {
    match dispatched {
        Err(_) => Err(Error::NotCreated),
        Ok(events) => match applied(events) {
            Some(r) => Ok(r),
            None => Err(Error::NotCreated),
        },
    }
}

impl Default for BidCommand {
    fn default() -> (cmd: Self)
        ensures
            cmd.auction is None,
            cmd.bid is None,
    {
        BidCommand { auction: None, bid: None }
    }
}

impl BidCommand {
    /// The command that a bid request runs: the auction found for it, and a
    /// new bid, under a fresh identifier, of the request's bidder and amount.
    pub fn for_request(auction: Option<Auction>, input: &BidInput) -> (cmd: BidCommand)
        ensures
            cmd.auction == auction,
            cmd.bid matches Some(bid) && bid == bid_for(bid.id, *input) && is_random_v4(bid.id.0),
    {
        let bid = Bid {
            id: BidId::new(),
            created: None,
            updated: None,
            auction_id: input.auction_id,
            bidder_id: input.bidder_id,
            concurrent_amount: None,
            amount: input.amount,
        };
        BidCommand { auction, bid: Some(bid) }
    }

    /// The events that the command causes: the creation of its bid.
    pub fn handle(&self, input: BidInput) -> (r: Result<Vec<Event>, Error>)
        ensures
            events_view(r) == handled(*self),
    {
        match self.bid {
            Some(bid) => {
                let mut events: Vec<Event> = Vec::new();
                events.push(Event::bid_created(bid));
                assert(events@ =~= seq![Event::BidCreated { payload: BidCreatedPayload { bid } }]);
                Ok(events)
            },
            None => Err(Error::NotCreated),
        }
    }

    /// The result that the recorded events stand for: that of the last event,
    /// `None` where there is none or it is no bid's creation.
    pub fn apply(events: Vec<Event>) -> (r: Option<BidResult>)
        ensures
            r == applied(events@),
    {
        let ghost all = events@;
        let mut events = events;
        match events.pop() {
            Some(Event::BidCreated { payload }) => {
                assert(all.drop_last() =~= events@);
                Some(BidResult { bid: payload.bid })
            },
            _ => None,
        }
    }
}

/// What a bid request answers once its events were dispatched: the bid that
/// the recorded events stand for; `NotCreated` where dispatching failed or
/// the events stand for no bid.
pub fn bid_outcome<E>(dispatched: Result<Vec<Event>, E>) -> (r: Result<BidResult, Error>)
    ensures
        r == outcome(events_view(dispatched)),
{
    match dispatched {
        Err(_) => Err(Error::NotCreated),
        Ok(events) => match BidCommand::apply(events) {
            Some(result) => Ok(result),
            None => Err(Error::NotCreated),
        },
    }
}

/// The result of recorded events rests on the last event alone: none for no
/// events, and otherwise what the last one stands for, whatever came before.
pub proof fn lemma_last_event_decides(events: Seq<Event>, last: Event)
    ensures
        applied(Seq::<Event>::empty()) is None,
        applied(events.push(last)) == match last {
            Event::BidCreated { payload } => Some(BidResult { bid: payload.bid }),
            _ => None,
        },
{
    assert(events.push(last).drop_last() =~= events);
}

/// A bid command that carries a bid, once its events are recorded as it
/// emitted them, answers with that very bid.
pub proof fn lemma_bid_round_trip<E>(cmd: BidCommand)
    requires
        cmd.bid is Some,
    ensures
        handled(cmd) is Ok,
        outcome::<E>(Ok(handled(cmd)->Ok_0)) == Ok::<BidResult, Error>(BidResult { bid: cmd.bid->Some_0 }),
{
    lemma_last_event_decides(Seq::<Event>::empty(), Event::BidCreated { payload: BidCreatedPayload { bid: cmd.bid->Some_0 } });
    assert(Seq::<Event>::empty().push(Event::BidCreated { payload: BidCreatedPayload { bid: cmd.bid->Some_0 } }) =~= handled(cmd)->Ok_0);
}

/// A bid command emits exactly one event, the creation of the bid it
/// carries, and fails with `NotCreated` exactly when it carries none.
pub proof fn lemma_handle_creates_carried_bid(cmd: BidCommand)
    ensures
        handled(cmd) is Ok <==> cmd.bid is Some,
        handled(cmd) is Err ==> handled(cmd) == Err::<Seq<Event>, Error>(Error::NotCreated),
        handled(cmd) matches Ok(events) ==> {
            &&& events.len() == 1
            &&& events[0] matches Event::BidCreated { payload } && cmd.bid == Some(payload.bid)
            &&& event_type_name(events[0]) == "bid_created"@
        },
{
}

/// What a bid request answers for each dispatcher response: `NotCreated` for
/// a failed dispatch or an empty record; otherwise the bid of the last
/// recorded event when it is a bid's creation, and `NotCreated` when it is
/// not, whatever events came before it.
pub proof fn lemma_outcome_of_dispatch<E>(failure: E, events: Seq<Event>, last: Event)
    ensures
        outcome::<E>(Err(failure)) == Err::<BidResult, Error>(Error::NotCreated),
        outcome::<E>(Ok(Seq::<Event>::empty())) == Err::<BidResult, Error>(Error::NotCreated),
        outcome::<E>(Ok(events.push(last))) == match last {
            Event::BidCreated { payload } => Ok::<BidResult, Error>(BidResult { bid: payload.bid }),
            _ => Err(Error::NotCreated),
        },
{
    lemma_last_event_decides(events, last);
}

} // verus!
