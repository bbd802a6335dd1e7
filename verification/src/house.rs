//! The data carried by one house under auction, and its well-formedness.

use vstd::prelude::*;

verus! {

/// Identifier of a house, allocated densely from 0.
pub type HouseId = i32;

/// Identifier of a bid, allocated from 0 over all houses.
pub type BidderId = i32;

/// Opaque identifier of an on-chain principal, supplied by the host.
pub type AccountId = u64;

/// Non-negative token amount in the host's base denomination.
pub type Balance = u128;

/// The all-zero account, used as a sentinel for "no winner assigned".
pub const ZERO_ACCOUNT: AccountId = 0;

/// No house accepts more bids than this cap.
pub const MAX_BIDDERS: usize = 5;

/// The sentinel account that stands for "nobody".
pub fn zero_address() -> (a: AccountId)
    ensures
        a == ZERO_ACCOUNT,
{
    0
}

/// One line in a house's bid ledger.
#[derive(Clone, Copy, PartialEq, Eq, Debug)]
pub struct Bidder {
    pub bidder_id: BidderId,
    pub bidder_account: AccountId,
    pub bidder_amount: Balance,
}

impl Default for Bidder {
    /// An empty ledger line held by the sentinel account.
    fn default() -> (d: Bidder)
        ensures
            d.bidder_id == 0,
            d.bidder_account == ZERO_ACCOUNT,
            d.bidder_amount == 0,
    {
        Bidder { bidder_id: 0, bidder_account: zero_address(), bidder_amount: 0 }
    }
}

/// One asset under auction: its metadata and its current bid ledger.
pub struct House {
    pub house_id: HouseId,
    pub house_owner: AccountId,
    pub house_title: String,
    pub house_description: String,
    pub rooms: i32,
    pub special_features: Vec<String>,
    pub initial_price: Balance,
    pub bidder: Vec<Bidder>,
    pub max_bid_price: Balance,
    pub winner: AccountId,
}

/// `a` and `b` carry the same values in every field.
///
/// Heap-backed fields are compared by contents; everything else exactly.
pub open spec fn house_like(a: House, b: House) -> bool {
    &&& a.house_id == b.house_id
    &&& a.house_owner == b.house_owner
    &&& a.house_title == b.house_title
    &&& a.house_description == b.house_description
    &&& a.rooms == b.rooms
    &&& a.special_features@ == b.special_features@
    &&& a.initial_price == b.initial_price
    &&& a.bidder@ == b.bidder@
    &&& a.max_bid_price == b.max_bid_price
    &&& a.winner == b.winner
}

impl Clone for House {
    fn clone(&self) -> (r: House)
        ensures
            house_like(r, *self),
    {
        let r = House {
            house_id: self.house_id,
            house_owner: self.house_owner,
            house_title: self.house_title.clone(),
            house_description: self.house_description.clone(),
            rooms: self.rooms,
            special_features: self.special_features.clone(),
            initial_price: self.initial_price,
            bidder: self.bidder.clone(),
            max_bid_price: self.max_bid_price,
            winner: self.winner,
        };
        proof {
            assert(r.special_features@ =~= self.special_features@);
            assert(r.bidder@ =~= self.bidder@);
        }
        r
    }
}

impl Default for House {
    /// An empty house owned by the sentinel account, with empty metadata
    /// and an empty bid ledger.
    fn default() -> (d: House)
        ensures
            d.house_id == 0,
            d.house_owner == ZERO_ACCOUNT,
            d.house_title@ == Seq::<char>::empty(),
            d.house_description@ == Seq::<char>::empty(),
            d.rooms == 0,
            d.special_features@ == Seq::<String>::empty(),
            d.initial_price == 0,
            d.bidder@ == Seq::<Bidder>::empty(),
            d.max_bid_price == 0,
            d.winner == ZERO_ACCOUNT,
    {
        House {
            house_id: 0,
            house_owner: zero_address(),
            house_title: String::new(),
            house_description: String::new(),
            rooms: 0,
            special_features: Vec::new(),
            initial_price: 0,
            bidder: Vec::new(),
            max_bid_price: 0,
            winner: zero_address(),
        }
    }
}

/// The house holds at most `MAX_BIDDERS` bids.
pub open spec fn bids_capped(h: House) -> bool {
    h.bidder@.len() <= MAX_BIDDERS
}

/// Bid amounts are strictly increasing in insertion order.
pub open spec fn bids_increasing(h: House) -> bool {
    forall|i: int, j: int|
        0 <= i < j < h.bidder@.len() ==> h.bidder@[i].bidder_amount < h.bidder@[
            j
        ].bidder_amount
}

/// No account appears twice in the house's ledger.
pub open spec fn bidders_distinct(h: House) -> bool {
    forall|i: int, j: int|
        0 <= i < j < h.bidder@.len() ==> h.bidder@[i].bidder_account != h.bidder@[
            j
        ].bidder_account
}

/// Every recorded bid meets the house's floor price.
pub open spec fn bids_meet_floor(h: House) -> bool {
    forall|i: int| 0 <= i < h.bidder@.len() ==> h.bidder@[i].bidder_amount >= h.initial_price
}

/// A settled winner comes with a full ledger, and the recorded top price is
/// the last (and highest) bid.
pub open spec fn winner_settled(h: House) -> bool {
    h.winner != ZERO_ACCOUNT ==> h.bidder@.len() == MAX_BIDDERS && h.max_bid_price == h.bidder@.last().bidder_amount
}

/// Well-formedness of one house: all ledger invariants at once.
pub open spec fn house_wf(h: House) -> bool {
    &&& bids_capped(h)
    &&& bids_increasing(h)
    &&& bidders_distinct(h)
    &&& bids_meet_floor(h)
    &&& winner_settled(h)
}

} // verus!
