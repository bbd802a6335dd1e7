//! The registry: houses kept under dense identifiers, the identifier
//! allocator, and the callable operations over them.
//!
//! The authenticated caller and the value carried by a payable call are
//! ambient on a chain; here they are plain arguments, so the registry can be
//! driven and tested without a host runtime.

use vstd::prelude::*;

use crate::engine::HouseError;
use crate::engine::bid_outcome;
use crate::engine::house_after_bid;
use crate::engine::house_after_winner;
use crate::engine::lemma_scan_refusal_none;
use crate::engine::scan_refusal_from;
use crate::engine::winner_outcome;
use crate::house::AccountId;
use crate::house::Balance;
use crate::house::Bidder;
use crate::house::BidderId;
use crate::house::House;
use crate::house::HouseId;
use crate::house::MAX_BIDDERS;
use crate::house::ZERO_ACCOUNT;
use crate::house::bidders_distinct;
use crate::house::bids_capped;
use crate::house::bids_increasing;
use crate::house::bids_meet_floor;
use crate::house::house_like;
use crate::house::house_wf;
use crate::house::winner_settled;
use crate::house::zero_address;

verus! {

/// The auction registry: the contract owner, the two identifier counters,
/// and one house per allocated identifier.
pub struct HouseBidding {
    owner: AccountId,
    house_id: HouseId,
    bidder_id: BidderId,
    houses: Vec<House>,
}

/// The house that `mint_house` records for its arguments: the given metadata
/// under the given identifier and owner, with an empty ledger, no top price,
/// and no winner.
pub open spec fn minted_house(
    h: House,
    id: HouseId,
    owner: AccountId,
    title: String,
    description: String,
    rooms: i32,
    price: Balance,
    features: Vec<String>,
) -> bool {
    &&& h.house_id == id
    &&& h.house_owner == owner
    &&& h.house_title == title
    &&& h.house_description == description
    &&& h.rooms == rooms
    &&& h.special_features == features
    &&& h.initial_price == price
    &&& h.bidder@ == Seq::<Bidder>::empty()
    &&& h.max_bid_price == 0
    &&& h.winner == ZERO_ACCOUNT
}

impl HouseBidding {
    /// The registered houses, by identifier.
    pub closed spec fn houses_seq(self) -> Seq<House> {
        self.houses@
    }

    /// The next free house identifier.
    pub closed spec fn house_counter(self) -> HouseId {
        self.house_id
    }

    /// The next free bid identifier.
    pub closed spec fn bidder_counter(self) -> BidderId {
        self.bidder_id
    }

    /// The account that deployed the registry.
    pub closed spec fn contract_owner(self) -> AccountId {
        self.owner
    }

    /// A house is registered under `house_id`.
    pub open spec fn house_exists(self, house_id: HouseId) -> bool {
        0 <= house_id < self.houses_seq().len()
    }

    /// Well-formedness: the counters are non-negative, the houses sit
    /// densely under their own identifiers, and each house satisfies the
    /// ledger invariants.
    pub open spec fn wf(self) -> bool {
        &&& 0 <= self.house_counter()
        &&& 0 <= self.bidder_counter()
        &&& self.houses_seq().len() == self.house_counter() as int
        &&& forall|i: int|
            0 <= i < self.houses_seq().len() ==> (#[trigger] self.houses_seq()[i]).house_id == i
        &&& forall|i: int|
            0 <= i < self.houses_seq().len() ==> house_wf(#[trigger] self.houses_seq()[i])
    }

    /// A fresh registry deployed by `caller`: both counters at 0, no houses.
    pub fn new(caller: AccountId) -> (r: HouseBidding)
        ensures
            r.wf(),
            r.contract_owner() == caller,
            r.house_counter() == 0,
            r.bidder_counter() == 0,
            r.houses_seq() == Seq::<House>::empty(),
    {
        HouseBidding { owner: caller, house_id: 0, bidder_id: 0, houses: Vec::new() }
    }

    /// Returns the next free house identifier and advances its counter.
    ///
    /// The allocator sits below the registry invariant: it does not keep
    /// `wf` by itself, and `mint_house` restores it by recording a house
    /// under the identifier it hands out.
    pub fn next_house_id(&mut self) -> (id: HouseId)
        requires
            old(self).house_counter() < i32::MAX,
        ensures
            id == old(self).house_counter(),
            final(self).house_counter() == old(self).house_counter() + 1,
            final(self).bidder_counter() == old(self).bidder_counter(),
            final(self).houses_seq() == old(self).houses_seq(),
            final(self).contract_owner() == old(self).contract_owner(),
    {
        let id = self.house_id;
        self.house_id = self.house_id + 1;
        id
    }

    /// Returns the next free bid identifier and advances its counter.
    pub fn next_bidder_id(&mut self) -> (id: BidderId)
        requires
            old(self).bidder_counter() < i32::MAX,
        ensures
            id == old(self).bidder_counter(),
            final(self).bidder_counter() == old(self).bidder_counter() + 1,
            final(self).house_counter() == old(self).house_counter(),
            final(self).houses_seq() == old(self).houses_seq(),
            final(self).contract_owner() == old(self).contract_owner(),
    {
        let id = self.bidder_id;
        self.bidder_id = self.bidder_id + 1;
        id
    }

    /// Mints a new house for `caller`: always succeeds, records the house
    /// under the next free identifier, and advances that counter by one.
    pub fn mint_house(
        &mut self,
        caller: AccountId,
        house_title: String,
        house_description: String,
        rooms: i32,
        initial_price: Balance,
        special_features: Vec<String>,
    ) -> (r: Result<(), HouseError>)
        requires
            old(self).wf(),
            old(self).house_counter() < i32::MAX,
        ensures
            r == Ok::<(), HouseError>(()),
            final(self).wf(),
            final(self).house_counter() == old(self).house_counter() + 1,
            final(self).bidder_counter() == old(self).bidder_counter(),
            final(self).contract_owner() == old(self).contract_owner(),
            final(self).houses_seq().len() == old(self).houses_seq().len() + 1,
            forall|j: int|
                0 <= j < old(self).houses_seq().len() ==> final(self).houses_seq()[j] == old(self).houses_seq()[j],
            minted_house(
                final(self).houses_seq().last(),
                old(self).house_counter(),
                caller,
                house_title,
                house_description,
                rooms,
                initial_price,
                special_features,
            ),
    {
        let house_id = self.next_house_id();
        let house = House {
            house_id,
            house_owner: caller,
            house_title,
            house_description,
            rooms,
            special_features,
            initial_price,
            bidder: Vec::new(),
            max_bid_price: 0,
            winner: zero_address(),
        };
        self.houses.push(house);
        Ok(())
    }

    /// Admits a bid of `value` by `caller` on the given house, applying the
    /// admission rules in order, and appends the new ledger line on success.
    /// The bid identifier counter advances whatever the outcome.
    #[verifier::loop_isolation(false)]
    pub fn bid(&mut self, caller: AccountId, value: Balance, house_id: HouseId) -> (r: Result<
        (),
        HouseError,
    >)
        requires
            old(self).wf(),
            old(self).bidder_counter() < i32::MAX,
        ensures
            final(self).wf(),
            final(self).bidder_counter() == old(self).bidder_counter() + 1,
            final(self).house_counter() == old(self).house_counter(),
            final(self).contract_owner() == old(self).contract_owner(),
            !old(self).house_exists(house_id) ==> r == Err::<(), HouseError>(
                HouseError::HouseNotFound,
            ) && final(self).houses_seq() == old(self).houses_seq(),
            old(self).house_exists(house_id) ==> match bid_outcome(
                old(self).houses_seq()[house_id as int],
                caller,
                value,
            ) {
                Err(e) => r == Err::<(), HouseError>(e) && final(self).houses_seq() == old(self).houses_seq(),
                Ok(_) => r == Ok::<(), HouseError>(()) && final(self).houses_seq().len() == old(self).houses_seq().len() && (forall|j: int|
                    0 <= j < old(self).houses_seq().len() && j != house_id ==> final(self).houses_seq()[j] == old(self).houses_seq()[j]) && house_after_bid(
                    old(self).houses_seq()[house_id as int],
                    final(self).houses_seq()[house_id as int],
                    (Bidder {
                        bidder_id: old(self).bidder_counter(),
                        bidder_account: caller,
                        bidder_amount: value,
                    }),
                ),
            },
    {
        let bidder_id = self.next_bidder_id();
        if house_id < 0 {
            return Err(HouseError::HouseNotFound);
        }
        let idx = house_id as usize;
        if idx >= self.houses.len() {
            return Err(HouseError::HouseNotFound);
        }
        let ghost pre = self.houses@[idx as int];
        {
            let house = &self.houses[idx];
            if value < house.initial_price {
                return Err(HouseError::ValueTooSmall);
            }
            let n = house.bidder.len();
            let mut i: usize = 0;
            while i < n
                invariant
                    i <= n,
                    scan_refusal_from(house.bidder@, caller, value, 0) == scan_refusal_from(
                        house.bidder@,
                        caller,
                        value,
                        i as int,
                    ),
                decreases n - i,
            {
                let b = &house.bidder[i];
                if value <= b.bidder_amount {
                    return Err(HouseError::LowBidPriceThanPreviouse);
                }
                if b.bidder_account == caller {
                    return Err(HouseError::CantBidTwice);
                }
                i = i + 1;
            }
            if n >= MAX_BIDDERS {
                return Err(HouseError::CantBidFurther);
            }
        }
        let mut house = self.houses.remove(idx);
        house.bidder.push(Bidder { bidder_id, bidder_account: caller, bidder_amount: value });
        let ghost posth = house;
        self.houses.insert(idx, house);
        proof {
            lemma_scan_refusal_none(pre.bidder@, caller, value, 0);
            assert(self.houses@ =~= old(self).houses@.update(idx as int, posth));
            assert(house_wf(pre));
        }
        Ok(())
    }

    /// Selects the winner of a fully-bid house: on success the top price and
    /// the winner are taken from the last (and highest) ledger line. A house
    /// that is not full reports `BiddingLimitNotFulfill` and is left
    /// unchanged; a full house whose first bid does not top the recorded
    /// maximum reports `StillBidding` and is left unchanged.
    pub fn get_winner(&mut self, house_id: HouseId) -> (r: Result<(), HouseError>)
        requires
            old(self).wf(),
        ensures
            final(self).wf(),
            final(self).bidder_counter() == old(self).bidder_counter(),
            final(self).house_counter() == old(self).house_counter(),
            final(self).contract_owner() == old(self).contract_owner(),
            !old(self).house_exists(house_id) ==> r == Err::<(), HouseError>(
                HouseError::HouseNotFound,
            ) && final(self).houses_seq() == old(self).houses_seq(),
            old(self).house_exists(house_id) ==> match winner_outcome(
                old(self).houses_seq()[house_id as int],
            ) {
                Err(e) => r == Err::<(), HouseError>(e) && final(self).houses_seq() == old(self).houses_seq(),
                Ok(_) => r == Ok::<(), HouseError>(()) && final(self).houses_seq().len() == old(self).houses_seq().len() && (forall|j: int|
                    0 <= j < old(self).houses_seq().len() && j != house_id ==> final(self).houses_seq()[j] == old(self).houses_seq()[j]) && house_after_winner(
                    old(self).houses_seq()[house_id as int],
                    final(self).houses_seq()[house_id as int],
                ),
            },
    {
        if house_id < 0 {
            return Err(HouseError::HouseNotFound);
        }
        let idx = house_id as usize;
        if idx >= self.houses.len() {
            return Err(HouseError::HouseNotFound);
        }
        let ghost pre = self.houses@[idx as int];
        {
            let house = &self.houses[idx];
            if house.bidder.len() != MAX_BIDDERS {
                return Err(HouseError::BiddingLimitNotFulfill);
            }
            let first = &house.bidder[0];
            if !(first.bidder_amount > house.max_bid_price) {
                return Err(HouseError::StillBidding);
            }
        }
        let mut house = self.houses.remove(idx);
        let last = house.bidder.len() - 1;
        let top = &house.bidder[last];
        let top_amount = top.bidder_amount;
        let top_account = top.bidder_account;
        house.max_bid_price = top_amount;
        house.winner = top_account;
        let ghost posth = house;
        self.houses.insert(idx, house);
        proof {
            assert(self.houses@ =~= old(self).houses@.update(idx as int, posth));
        }
        Ok(())
    }

    /// Returns a copy of every registered house, in ascending identifier
    /// order; on a well-formed registry that is exactly one record per
    /// allocated identifier.
    #[verifier::loop_isolation(false)]
    pub fn get_house(&self) -> (r: Vec<House>)
        ensures
            r@.len() == self.houses_seq().len(),
            forall|i: int| 0 <= i < r@.len() ==> house_like(r@[i], self.houses_seq()[i]),
            self.wf() ==> r@.len() == self.house_counter() as int && (forall|i: int|
                0 <= i < r@.len() ==> r@[i].house_id == i),
    {
        let mut result: Vec<House> = Vec::new();
        let mut i: usize = 0;
        while i < self.houses.len()
            invariant
                i <= self.houses.len(),
                result@.len() == i,
                forall|j: int| 0 <= j < i ==> house_like(result@[j], self.houses_seq()[j]),
            decreases self.houses.len() - i,
        {
            let h = &self.houses[i];
            result.push(h.clone());
            i = i + 1;
        }
        result
    }
}

impl Default for HouseBidding {
    /// An empty registry owned by the sentinel account.
    fn default() -> (d: HouseBidding)
        ensures
            d.wf(),
            d.contract_owner() == ZERO_ACCOUNT,
            d.house_counter() == 0,
            d.bidder_counter() == 0,
            d.houses_seq() == Seq::<House>::empty(),
    {
        HouseBidding { owner: zero_address(), house_id: 0, bidder_id: 0, houses: Vec::new() }
    }
}

/// Every house of a well-formed registry holds at most `MAX_BIDDERS` bids.
pub proof fn lemma_registry_bids_capped(s: HouseBidding, i: int)
    requires
        s.wf(),
        0 <= i < s.houses_seq().len(),
    ensures
        bids_capped(s.houses_seq()[i]),
{
}

/// In every house of a well-formed registry, the recorded bid amounts are
/// strictly increasing in insertion order.
pub proof fn lemma_registry_bids_increasing(s: HouseBidding, i: int)
    requires
        s.wf(),
        0 <= i < s.houses_seq().len(),
    ensures
        bids_increasing(s.houses_seq()[i]),
{
}

/// No account appears twice in the ledger of any house of a well-formed
/// registry.
pub proof fn lemma_registry_bidders_distinct(s: HouseBidding, i: int)
    requires
        s.wf(),
        0 <= i < s.houses_seq().len(),
    ensures
        bidders_distinct(s.houses_seq()[i]),
{
}

/// In every house of a well-formed registry, every recorded bid meets the
/// house's floor price.
pub proof fn lemma_registry_bids_meet_floor(s: HouseBidding, i: int)
    requires
        s.wf(),
        0 <= i < s.houses_seq().len(),
    ensures
        bids_meet_floor(s.houses_seq()[i]),
{
}

/// In a well-formed registry, a house with a non-sentinel winner has a full
/// ledger, and its recorded top price is the last bid's amount.
pub proof fn lemma_registry_winner_settled(s: HouseBidding, i: int)
    requires
        s.wf(),
        0 <= i < s.houses_seq().len(),
    ensures
        winner_settled(s.houses_seq()[i]),
{
}

/// A well-formed registry holds exactly one house per allocated identifier,
/// densely from 0 and in ascending order.
pub proof fn lemma_registry_dense_ids(s: HouseBidding)
    requires
        s.wf(),
    ensures
        s.houses_seq().len() == s.house_counter() as int,
        forall|i: int| 0 <= i < s.houses_seq().len() ==> s.houses_seq()[i].house_id == i,
{
}

} // verus!
