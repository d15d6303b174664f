//! The records that the commands carry: users' bids on auctions of products
//! during shows, and comments on shows.

use vstd::prelude::*;
use crate::ids::{AuctionId, BidId, CommentId, ProductId, ShowId, UserId};

verus! {

/// A point in time, in microseconds since the Unix epoch (UTC).
#[derive(Clone, Copy, Debug, PartialEq, Eq, Structural, Hash)]
pub struct DateTime(pub i64);

/// A sum of money bid on an auction.
#[derive(Clone, Copy, Debug, PartialEq, Eq, Structural, Hash)]
pub struct Amount(pub i64);

/// A piece of user-written text.
#[derive(Clone, Debug, PartialEq, Eq, Hash)]
pub struct Text(pub String);

impl Text {
    /// The text that `s` holds.
    pub fn new(s: &str) -> (t: Text)
        ensures
            t.0@ == s@,
    {
        Text(s.to_owned())
    }
}

/// A product that a user put up for sale.
#[derive(Clone, Debug, PartialEq, Eq)]
pub struct Product {
    pub id: ProductId,
    pub created: Option<DateTime>,
    pub updated: Option<DateTime>,
    pub creator_id: UserId,
    pub name: String,
}

/// A live show, in which auctions run and users comment.
#[derive(Clone, Debug, PartialEq, Eq)]
pub struct Show {
    pub id: ShowId,
    pub creator_id: UserId,
    pub name: Text,
    pub started_at: Option<DateTime>,
}

/// The auction of a product during a show.
#[derive(Clone, Copy, Debug, PartialEq, Eq, Structural)]
pub struct Auction {
    pub id: AuctionId,
    pub created: Option<DateTime>,
    pub updated: Option<DateTime>,
    pub show_id: ShowId,
    pub product_id: ProductId,
    pub started: Option<DateTime>,
    pub expired: Option<DateTime>,
}

/// A user's bid on an auction.
#[derive(Clone, Copy, Debug, PartialEq, Eq, Structural)]
pub struct Bid {
    pub id: BidId,
    pub created: Option<DateTime>,
    pub updated: Option<DateTime>,
    pub auction_id: AuctionId,
    pub bidder_id: UserId,
    pub concurrent_amount: Option<Amount>,
    pub amount: Amount,
}

/// A user's comment on a show.
#[derive(Clone, Debug, PartialEq, Eq)]
pub struct Comment {
    pub id: CommentId,
    pub created: Option<DateTime>,
    pub updated: Option<DateTime>,
    pub author_id: UserId,
    pub show_id: ShowId,
    pub text: Text,
}

} // verus!
