//! Identifiers. Each identifier holds the 128-bit value of a UUID; fresh ones
//! are random version-4 UUIDs drawn from the `uuid` crate.

use vstd::prelude::*;

verus! {

/// Holds of every value that `uuid::Uuid::new_v4` produces: the version
/// nibble is 4 and the variant bits are `10` (RFC 4122).
pub open spec fn is_random_v4(v: u128) -> bool {
    &&& (v >> 76u128) & 0xfu128 == 4u128
    &&& (v >> 62u128) & 0x3u128 == 2u128
}

/// What `uuid::Uuid::parse_str` gives for a text: the UUID's 128-bit value,
/// or `None` where the text is no UUID.
pub uninterp spec fn uuid_parse_result(text: Seq<char>) -> Option<u128>;

/// Calls `uuid::Uuid::new_v4` and hands back the UUID as a `u128`.
/// The value is random; the crate's source masks in the version nibble 4 and
/// the RFC 4122 variant bits, which is all the contract claims.
#[verifier::external_body]
fn fresh_uuid_v4() -> (v: u128)
    ensures
        is_random_v4(v),
{
    uuid::Uuid::new_v4().as_u128()
}

/// Calls `uuid::Uuid::parse_str` and hands back the UUID as a `u128`; the
/// contract only names the result (`uuid_parse_result`) of the text.
#[verifier::external_body]
fn parse_uuid(text: &str) -> (v: Option<u128>)
    ensures
        v == uuid_parse_result(text@),
{
    match uuid::Uuid::parse_str(text) {
        Ok(u) => Some(u.as_u128()),
        Err(_) => None,
    }
}

/// Identifies a user.
#[derive(Clone, Copy, Debug, PartialEq, Eq, Structural, Hash)]
pub struct UserId(pub u128);

impl UserId {
    /// A fresh random identifier.
    pub fn new() -> (id: Self)
        ensures
            is_random_v4(id.0),
    {
        UserId(fresh_uuid_v4())
    }

    /// Reads an identifier written as a UUID; `None` where the text is none.
    pub fn parse(text: &str) -> (id: Option<Self>)
        ensures
            match id {
                Some(id) => uuid_parse_result(text@) == Some(id.0),
                None => uuid_parse_result(text@) is None,
            },
    {
        match parse_uuid(text) {
            Some(v) => Some(UserId(v)),
            None => None,
        }
    }
}

/// Identifies a show.
#[derive(Clone, Copy, Debug, PartialEq, Eq, Structural, Hash)]
pub struct ShowId(pub u128);

impl ShowId {
    /// A fresh random identifier.
    pub fn new() -> (id: Self)
        ensures
            is_random_v4(id.0),
    {
        ShowId(fresh_uuid_v4())
    }

    /// Reads an identifier written as a UUID; `None` where the text is none.
    pub fn parse(text: &str) -> (id: Option<Self>)
        ensures
            match id {
                Some(id) => uuid_parse_result(text@) == Some(id.0),
                None => uuid_parse_result(text@) is None,
            },
    {
        match parse_uuid(text) {
            Some(v) => Some(ShowId(v)),
            None => None,
        }
    }
}

/// Identifies an auction.
#[derive(Clone, Copy, Debug, PartialEq, Eq, Structural, Hash)]
pub struct AuctionId(pub u128);

impl AuctionId {
    /// A fresh random identifier.
    pub fn new() -> (id: Self)
        ensures
            is_random_v4(id.0),
    {
        AuctionId(fresh_uuid_v4())
    }

    /// Reads an identifier written as a UUID; `None` where the text is none.
    pub fn parse(text: &str) -> (id: Option<Self>)
        ensures
            match id {
                Some(id) => uuid_parse_result(text@) == Some(id.0),
                None => uuid_parse_result(text@) is None,
            },
    {
        match parse_uuid(text) {
            Some(v) => Some(AuctionId(v)),
            None => None,
        }
    }
}

/// Identifies a bid.
#[derive(Clone, Copy, Debug, PartialEq, Eq, Structural, Hash)]
pub struct BidId(pub u128);

impl BidId {
    /// A fresh random identifier.
    pub fn new() -> (id: Self)
        ensures
            is_random_v4(id.0),
    {
        BidId(fresh_uuid_v4())
    }

    /// Reads an identifier written as a UUID; `None` where the text is none.
    pub fn parse(text: &str) -> (id: Option<Self>)
        ensures
            match id {
                Some(id) => uuid_parse_result(text@) == Some(id.0),
                None => uuid_parse_result(text@) is None,
            },
    {
        match parse_uuid(text) {
            Some(v) => Some(BidId(v)),
            None => None,
        }
    }
}

/// Identifies a product.
#[derive(Clone, Copy, Debug, PartialEq, Eq, Structural, Hash)]
pub struct ProductId(pub u128);

impl ProductId {
    /// A fresh random identifier.
    pub fn new() -> (id: Self)
        ensures
            is_random_v4(id.0),
    {
        ProductId(fresh_uuid_v4())
    }

    /// Reads an identifier written as a UUID; `None` where the text is none.
    pub fn parse(text: &str) -> (id: Option<Self>)
        ensures
            match id {
                Some(id) => uuid_parse_result(text@) == Some(id.0),
                None => uuid_parse_result(text@) is None,
            },
    {
        match parse_uuid(text) {
            Some(v) => Some(ProductId(v)),
            None => None,
        }
    }
}

/// Identifies a comment.
#[derive(Clone, Copy, Debug, PartialEq, Eq, Structural, Hash)]
pub struct CommentId(pub u128);

impl CommentId {
    /// A fresh random identifier.
    pub fn new() -> (id: Self)
        ensures
            is_random_v4(id.0),
    {
        CommentId(fresh_uuid_v4())
    }

    /// Reads an identifier written as a UUID; `None` where the text is none.
    pub fn parse(text: &str) -> (id: Option<Self>)
        ensures
            match id {
                Some(id) => uuid_parse_result(text@) == Some(id.0),
                None => uuid_parse_result(text@) is None,
            },
    {
        match parse_uuid(text) {
            Some(v) => Some(CommentId(v)),
            None => None,
        }
    }
}

} // verus!
