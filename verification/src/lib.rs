//! Verified core of a campaign escrow and its fee-splitting calculator.
//!
//! `fee_distribution` computes how a payout divides between a platform fee
//! and the payee. `escrow` holds the decisions of the escrow contract: every
//! entry point is a function from the state it reads to the effects it
//! performs (authorizations, token movements, storage writes, events), so
//! that the host running the contract only has to carry them out in order.
pub mod fee_distribution;
pub mod escrow;
