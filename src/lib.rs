//! A two-party token-swap escrow: a maker locks asset A in a vault owned by a
//! derived escrow address and names a price in asset B; a taker settles the
//! swap, or the maker cancels it and reclaims the deposit.
//!
//! Every handler is a pure function from the transaction's inputs (the
//! instruction data and a snapshot of the supplied accounts) to either an
//! error or the ordered list of effects that the host must carry out.
pub mod account;
pub mod errors;
pub mod address;
pub mod state;
pub mod instructions;
pub mod laws;
