//! A two-party escrow settlement engine for a price-direction wager.
//!
//! Two participants each deposit a fixed stake and nominate opposing
//! directional outcomes on a reference price; a price feed later determines
//! a winner who receives both stakes. This crate holds the verified core:
//! the wager record and its invariants, the price-resolution policy, the
//! settlement arithmetic, the lifecycle state machine, the persisted byte
//! layout of the record, and the instruction decoder. Reading accounts,
//! querying the oracle and moving tokens are left to the embedding program,
//! which acts on the transfer directives this library returns.

pub mod codec;
pub mod errors;
pub mod instruction;
pub mod lifecycle;
pub mod price;
pub mod settlement;
pub mod state;
