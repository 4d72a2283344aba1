//! A two-party collateral payment channel: the buyer locks refundable
//! collateral in a vault, pays the item's price to the receiver in
//! installments, and takes the collateral back once the price is paid exactly.
//!
//! Every operation is split into a decision, which validates the request
//! against the channel and names the transfer the ledger must perform, and a
//! record step, which applies the state change once that transfer succeeded.
pub mod channel;
pub mod errors;
pub mod keys;
pub mod laws;
pub mod transfers;
