//! The failures of a bridge orchestrator between a Cosmos chain and an
//! Ethereum chain, as two closed sets of values: what a validator's
//! configuration can get wrong before anything is sent, and what can go wrong
//! while the two chains are queried and written to.

pub mod foreign;
pub mod operational;
pub mod text;
pub mod validation;
