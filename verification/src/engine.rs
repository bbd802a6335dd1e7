//! The auction rules: bid admission, ordering, and winner selection, stated
//! as specifications over one house, together with the laws they obey.

use vstd::prelude::*;

use crate::house::AccountId;
use crate::house::Balance;
use crate::house::Bidder;
use crate::house::House;
use crate::house::MAX_BIDDERS;
use crate::house::house_wf;

verus! {

/// Why a call on the registry was refused.
#[derive(Clone, Copy, PartialEq, Eq, Debug)]
pub enum HouseError {
    HouseNotFound,
    CantBidFurther,
    StillBidding,
    CantBidTwice,
    ValueTooSmall,
    BiddingLimitNotFulfill,
    LowBidPriceThanPreviouse,
}

/// The refusal, if any, that the ledger scan of a new bid reports, starting
/// from entry `k`: the first entry not strictly below `value` reports
/// `LowBidPriceThanPreviouse`; otherwise an entry already held by `caller`
/// reports `CantBidTwice`.
pub open spec fn scan_refusal_from(
    bids: Seq<Bidder>,
    caller: AccountId,
    value: Balance,
    k: int,
) -> Option<HouseError>
    decreases bids.len() - k,
{
    if k < 0 || k >= bids.len() {
        None
    } else if value <= bids[k].bidder_amount {
        Some(HouseError::LowBidPriceThanPreviouse)
    } else if bids[k].bidder_account == caller {
        Some(HouseError::CantBidTwice)
    } else {
        scan_refusal_from(bids, caller, value, k + 1)
    }
}

/// The refusal, if any, that scanning the whole ledger reports.
pub open spec fn scan_refusal(bids: Seq<Bidder>, caller: AccountId, value: Balance) -> Option<
    HouseError,
> {
    scan_refusal_from(bids, caller, value, 0)
}

/// What a bid of `value` by `caller` on house `h` decides, with the
/// admission rules applied in order: the floor first, then the ledger scan,
/// then the cap.
pub open spec fn bid_outcome(h: House, caller: AccountId, value: Balance) -> Result<
    (),
    HouseError,
> {
    if value < h.initial_price {
        Err(HouseError::ValueTooSmall)
    } else {
        match scan_refusal(h.bidder@, caller, value) {
            Some(e) => Err(e),
            None => if h.bidder@.len() >= MAX_BIDDERS {
                Err(HouseError::CantBidFurther)
            } else {
                Ok(())
            },
        }
    }
}

/// What a winner-selection call on house `h` decides: it succeeds on a full
/// ledger whose first bid tops the recorded maximum, reports
/// `BiddingLimitNotFulfill` on a ledger that is not full, and `StillBidding`
/// otherwise.
pub open spec fn winner_outcome(h: House) -> Result<(), HouseError> {
    if h.bidder@.len() != MAX_BIDDERS {
        Err(HouseError::BiddingLimitNotFulfill)
    } else if h.bidder@[0].bidder_amount > h.max_bid_price {
        Ok(())
    } else {
        Err(HouseError::StillBidding)
    }
}

/// `post` is `pre` with the ledger line `b` appended and every other field
/// unchanged.
pub open spec fn house_after_bid(pre: House, post: House, b: Bidder) -> bool {
    &&& post.house_id == pre.house_id
    &&& post.house_owner == pre.house_owner
    &&& post.house_title == pre.house_title
    &&& post.house_description == pre.house_description
    &&& post.rooms == pre.rooms
    &&& post.special_features == pre.special_features
    &&& post.initial_price == pre.initial_price
    &&& post.bidder@ == pre.bidder@.push(b)
    &&& post.max_bid_price == pre.max_bid_price
    &&& post.winner == pre.winner
}

/// `post` is `pre` settled: the top price and the winner are taken from the
/// last ledger line, and every other field is unchanged.
pub open spec fn house_after_winner(pre: House, post: House) -> bool {
    &&& post.house_id == pre.house_id
    &&& post.house_owner == pre.house_owner
    &&& post.house_title == pre.house_title
    &&& post.house_description == pre.house_description
    &&& post.rooms == pre.rooms
    &&& post.special_features == pre.special_features
    &&& post.initial_price == pre.initial_price
    &&& post.bidder@ == pre.bidder@
    &&& post.max_bid_price == pre.bidder@.last().bidder_amount
    &&& post.winner == pre.bidder@.last().bidder_account
}

/// The ledger scan from entry `k` passes exactly when, from `k` on, every
/// recorded amount is strictly below `value` and no entry is held by
/// `caller`.
pub proof fn lemma_scan_refusal_none(bids: Seq<Bidder>, caller: AccountId, value: Balance, k: int)
    requires
        0 <= k <= bids.len(),
    ensures
        scan_refusal_from(bids, caller, value, k) is None <==> (forall|j: int|
            k <= j < bids.len() ==> value > bids[j].bidder_amount && bids[j].bidder_account
                != caller),
    decreases bids.len() - k,
{
    if k < bids.len() {
        lemma_scan_refusal_none(bids, caller, value, k + 1);
    }
}

/// A ledger with an entry of `caller` at or after `k` refuses every further
/// bid of `caller`; when the new value tops every recorded amount, the
/// refusal is `CantBidTwice`.
pub proof fn lemma_scan_refusal_rebid(bids: Seq<Bidder>, caller: AccountId, value: Balance, k: int)
    requires
        0 <= k <= bids.len(),
        exists|j: int| k <= j < bids.len() && bids[j].bidder_account == caller,
    ensures
        scan_refusal_from(bids, caller, value, k) is Some,
        (forall|j: int| k <= j < bids.len() ==> value > bids[j].bidder_amount)
            ==> scan_refusal_from(bids, caller, value, k) == Some(HouseError::CantBidTwice),
    decreases bids.len() - k,
{
    if value <= bids[k].bidder_amount {
    } else if bids[k].bidder_account == caller {
    } else {
        let w = choose|j: int| k <= j < bids.len() && bids[j].bidder_account == caller;
        assert(k < w);
        lemma_scan_refusal_rebid(bids, caller, value, k + 1);
    }
}

/// Once an account holds a line of a house's ledger, no further bid of that
/// account is admitted on the house; and when the new value tops every
/// recorded amount, the refusal is exactly `CantBidTwice`.
pub proof fn lemma_rebid_refused(pre: House, post: House, b: Bidder, value: Balance)
    requires
        bid_outcome(pre, b.bidder_account, b.bidder_amount) == Ok::<(), HouseError>(()),
        house_after_bid(pre, post, b),
    ensures
        bid_outcome(post, b.bidder_account, value) is Err,
        (forall|j: int| 0 <= j < post.bidder@.len() ==> value > post.bidder@[j].bidder_amount)
            ==> bid_outcome(post, b.bidder_account, value) == Err::<(), HouseError>(HouseError::CantBidTwice),
{
    let caller = b.bidder_account;
    assert(post.bidder@[post.bidder@.len() - 1] == b);
    lemma_scan_refusal_rebid(post.bidder@, caller, value, 0);
}

/// Selecting a winner is idempotent: a house that has just been settled no
/// longer passes the selection test, so a second call reports `StillBidding`
/// and, by the selection contract, changes nothing.
pub proof fn lemma_winner_selection_idempotent(pre: House, post: House)
    requires
        house_wf(pre),
        winner_outcome(pre) == Ok::<(), HouseError>(()),
        house_after_winner(pre, post),
    ensures
        winner_outcome(post) == Err::<(), HouseError>(HouseError::StillBidding),
{
    assert(pre.bidder@[0].bidder_amount < pre.bidder@[pre.bidder@.len() - 1].bidder_amount);
}

} // verus!
