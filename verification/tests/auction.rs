use house_bidding::engine::HouseError;
use house_bidding::house::Bidder;
use house_bidding::house::House;
use house_bidding::house::MAX_BIDDERS;
use house_bidding::house::zero_address;
use house_bidding::registry::HouseBidding;

const ALICE: u64 = 1;
const BOB: u64 = 2;
const CAROL: u64 = 3;
const DAVE: u64 = 4;
const ERIN: u64 = 5;
const FRANK: u64 = 6;
const GRACE: u64 = 7;

fn mint_default_house(registry: &mut HouseBidding, owner: u64, floor: u128) {
    let r = registry.mint_house(
        owner,
        "H0".to_string(),
        String::new(),
        3,
        floor,
        Vec::new(),
    );
    assert_eq!(r, Ok(()));
}

#[test]
fn mint_then_list() {
    let mut registry = HouseBidding::new(ALICE);
    mint_default_house(&mut registry, ALICE, 100);
    let houses = registry.get_house();
    assert_eq!(houses.len(), 1);
    let h = &houses[0];
    assert_eq!(h.house_id, 0);
    assert_eq!(h.house_owner, ALICE);
    assert_eq!(h.house_title, "H0".to_string());
    assert_eq!(h.house_description, String::new());
    assert_eq!(h.rooms, 3);
    assert!(h.special_features.is_empty());
    assert_eq!(h.initial_price, 100);
    assert!(h.bidder.is_empty());
    assert_eq!(h.max_bid_price, 0);
    assert_eq!(h.winner, zero_address());
}

#[test]
fn listing_keeps_metadata_and_order() {
    let mut registry = HouseBidding::new(ALICE);
    let r = registry.mint_house(
        ALICE,
        "villa".to_string(),
        "by the sea".to_string(),
        7,
        1000,
        vec!["pool".to_string(), "garden".to_string()],
    );
    assert_eq!(r, Ok(()));
    let r = registry.mint_house(
        BOB,
        "hut".to_string(),
        String::new(),
        1,
        10,
        Vec::new(),
    );
    assert_eq!(r, Ok(()));
    let houses = registry.get_house();
    assert_eq!(houses.len(), 2);
    assert_eq!(houses[0].house_id, 0);
    assert_eq!(houses[0].special_features, vec!["pool".to_string(), "garden".to_string()]);
    assert_eq!(houses[1].house_id, 1);
    assert_eq!(houses[1].house_owner, BOB);
}

#[test]
fn bid_below_floor() {
    let mut registry = HouseBidding::new(ALICE);
    mint_default_house(&mut registry, ALICE, 100);
    assert_eq!(registry.bid(BOB, 50, 0), Err(HouseError::ValueTooSmall));
    assert!(registry.get_house()[0].bidder.is_empty());
}

#[test]
fn happy_path_full_auction() {
    let mut registry = HouseBidding::new(ALICE);
    mint_default_house(&mut registry, ALICE, 100);
    assert_eq!(registry.bid(BOB, 100, 0), Ok(()));
    assert_eq!(registry.bid(CAROL, 150, 0), Ok(()));
    assert_eq!(registry.bid(DAVE, 200, 0), Ok(()));
    assert_eq!(registry.bid(ERIN, 250, 0), Ok(()));
    assert_eq!(registry.bid(FRANK, 300, 0), Ok(()));
    assert_eq!(registry.get_winner(0), Ok(()));
    let h = &registry.get_house()[0];
    assert_eq!(h.winner, FRANK);
    assert_eq!(h.max_bid_price, 300);
    assert_eq!(h.bidder.len(), MAX_BIDDERS);
}

#[test]
fn duplicate_bidder() {
    let mut registry = HouseBidding::new(ALICE);
    mint_default_house(&mut registry, ALICE, 100);
    assert_eq!(registry.bid(BOB, 100, 0), Ok(()));
    assert_eq!(registry.bid(BOB, 200, 0), Err(HouseError::CantBidTwice));
    // The monotonicity check runs before the own-prior-bid check, so a value
    // equal to the prior bid reports the low-price error instead.
    assert_eq!(registry.bid(BOB, 100, 0), Err(HouseError::LowBidPriceThanPreviouse));
    assert_eq!(registry.get_house()[0].bidder.len(), 1);
}

#[test]
fn floor_is_checked_before_the_ledger() {
    let mut registry = HouseBidding::new(ALICE);
    mint_default_house(&mut registry, ALICE, 100);
    assert_eq!(registry.bid(BOB, 100, 0), Ok(()));
    assert_eq!(registry.bid(BOB, 50, 0), Err(HouseError::ValueTooSmall));
}

#[test]
fn non_monotone_bid() {
    let mut registry = HouseBidding::new(ALICE);
    mint_default_house(&mut registry, ALICE, 100);
    assert_eq!(registry.bid(BOB, 100, 0), Ok(()));
    assert_eq!(registry.bid(CAROL, 150, 0), Ok(()));
    assert_eq!(registry.bid(DAVE, 150, 0), Err(HouseError::LowBidPriceThanPreviouse));
    assert_eq!(registry.bid(DAVE, 140, 0), Err(HouseError::LowBidPriceThanPreviouse));
    assert_eq!(registry.get_house()[0].bidder.len(), 2);
}

#[test]
fn early_winner_call() {
    let mut registry = HouseBidding::new(ALICE);
    mint_default_house(&mut registry, ALICE, 100);
    assert_eq!(registry.bid(BOB, 100, 0), Ok(()));
    assert_eq!(registry.bid(CAROL, 150, 0), Ok(()));
    assert_eq!(registry.bid(DAVE, 200, 0), Ok(()));
    assert_eq!(registry.bid(ERIN, 250, 0), Ok(()));
    assert_eq!(registry.get_winner(0), Err(HouseError::BiddingLimitNotFulfill));
    let h = &registry.get_house()[0];
    assert_eq!(h.bidder.len(), 4);
    assert_eq!(h.max_bid_price, 0);
    assert_eq!(h.winner, zero_address());
}

#[test]
fn unknown_house() {
    let mut registry = HouseBidding::new(ALICE);
    mint_default_house(&mut registry, ALICE, 100);
    assert_eq!(registry.bid(BOB, 500, 999), Err(HouseError::HouseNotFound));
    assert_eq!(registry.get_winner(999), Err(HouseError::HouseNotFound));
    assert_eq!(registry.bid(BOB, 500, -1), Err(HouseError::HouseNotFound));
    assert_eq!(registry.get_winner(-1), Err(HouseError::HouseNotFound));
}

#[test]
fn sixth_bid_refused() {
    let mut registry = HouseBidding::new(ALICE);
    mint_default_house(&mut registry, ALICE, 100);
    assert_eq!(registry.bid(BOB, 100, 0), Ok(()));
    assert_eq!(registry.bid(CAROL, 150, 0), Ok(()));
    assert_eq!(registry.bid(DAVE, 200, 0), Ok(()));
    assert_eq!(registry.bid(ERIN, 250, 0), Ok(()));
    assert_eq!(registry.bid(FRANK, 300, 0), Ok(()));
    assert_eq!(registry.bid(GRACE, 350, 0), Err(HouseError::CantBidFurther));
    assert_eq!(registry.get_house()[0].bidder.len(), MAX_BIDDERS);
}

#[test]
fn winner_call_is_idempotent_on_a_settled_house() {
    let mut registry = HouseBidding::new(ALICE);
    mint_default_house(&mut registry, ALICE, 100);
    assert_eq!(registry.bid(BOB, 100, 0), Ok(()));
    assert_eq!(registry.bid(CAROL, 150, 0), Ok(()));
    assert_eq!(registry.bid(DAVE, 200, 0), Ok(()));
    assert_eq!(registry.bid(ERIN, 250, 0), Ok(()));
    assert_eq!(registry.bid(FRANK, 300, 0), Ok(()));
    assert_eq!(registry.get_winner(0), Ok(()));
    let before = registry.get_house();
    assert_eq!(registry.get_winner(0), Err(HouseError::StillBidding));
    let after = registry.get_house();
    assert_eq!(after.len(), before.len());
    assert_eq!(after[0].winner, before[0].winner);
    assert_eq!(after[0].max_bid_price, before[0].max_bid_price);
    assert_eq!(after[0].bidder, before[0].bidder);
}

#[test]
fn full_ledger_of_a_zero_floor_house_can_stay_unsettled() {
    // With a floor of 0, the first admitted bid may be 0; the selection scan
    // then never sees a bid above its running maximum and reports that the
    // house is still bidding.
    let mut registry = HouseBidding::new(ALICE);
    mint_default_house(&mut registry, ALICE, 0);
    assert_eq!(registry.bid(BOB, 0, 0), Ok(()));
    assert_eq!(registry.bid(CAROL, 1, 0), Ok(()));
    assert_eq!(registry.bid(DAVE, 2, 0), Ok(()));
    assert_eq!(registry.bid(ERIN, 3, 0), Ok(()));
    assert_eq!(registry.bid(FRANK, 4, 0), Ok(()));
    assert_eq!(registry.get_winner(0), Err(HouseError::StillBidding));
    let h = &registry.get_house()[0];
    assert_eq!(h.winner, zero_address());
    assert_eq!(h.max_bid_price, 0);
}

#[test]
fn minting_advances_the_house_counter() {
    let mut registry = HouseBidding::new(ALICE);
    mint_default_house(&mut registry, ALICE, 100);
    mint_default_house(&mut registry, BOB, 200);
    mint_default_house(&mut registry, CAROL, 300);
    let houses = registry.get_house();
    assert_eq!(houses.len(), 3);
    for (i, h) in houses.iter().enumerate() {
        assert_eq!(h.house_id, i as i32);
    }
    assert_eq!(registry.next_house_id(), 3);
}

#[test]
fn identifier_allocators_return_then_advance() {
    let mut registry = HouseBidding::new(ALICE);
    assert_eq!(registry.next_house_id(), 0);
    assert_eq!(registry.next_house_id(), 1);
    assert_eq!(registry.next_bidder_id(), 0);
    assert_eq!(registry.next_bidder_id(), 1);
}

#[test]
fn every_bid_call_consumes_a_bidder_id() {
    let mut registry = HouseBidding::new(ALICE);
    mint_default_house(&mut registry, ALICE, 100);
    // A refused bid still consumes an identifier, as does one on a missing
    // house.
    assert_eq!(registry.bid(BOB, 500, 999), Err(HouseError::HouseNotFound));
    assert_eq!(registry.bid(BOB, 50, 0), Err(HouseError::ValueTooSmall));
    assert_eq!(registry.bid(BOB, 100, 0), Ok(()));
    let h = &registry.get_house()[0];
    assert_eq!(h.bidder[0].bidder_id, 2);
    assert_eq!(h.bidder[0].bidder_account, BOB);
    assert_eq!(h.bidder[0].bidder_amount, 100);
}

#[test]
fn default_values_are_empty_and_owned_by_nobody() {
    let b = Bidder::default();
    assert_eq!(b.bidder_id, 0);
    assert_eq!(b.bidder_account, zero_address());
    assert_eq!(b.bidder_amount, 0);

    let h = House::default();
    assert_eq!(h.house_id, 0);
    assert_eq!(h.house_owner, zero_address());
    assert_eq!(h.house_title, String::new());
    assert_eq!(h.house_description, String::new());
    assert_eq!(h.rooms, 0);
    assert!(h.special_features.is_empty());
    assert_eq!(h.initial_price, 0);
    assert!(h.bidder.is_empty());
    assert_eq!(h.max_bid_price, 0);
    assert_eq!(h.winner, zero_address());

    let registry = HouseBidding::default();
    assert!(registry.get_house().is_empty());
}
