//! An on-chain auction registry for house-like assets.
//!
//! Each house is minted by an owner, then accepts bids from distinct
//! participants until the bid cap is reached, at which point a winner may be
//! selected. The registry keeps every house under a dense integer identifier;
//! the auction rules (bid admission, ordering, winner selection) are stated as
//! specifications and proved of the executable code.
//!
//! Ambient chain state (the authenticated caller and the value carried by a
//! payable call) is passed in as plain arguments, so the registry can be
//! driven by any host.

pub mod engine;
pub mod house;
pub mod registry;
