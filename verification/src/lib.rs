//! Fee adjustment and gas settlement engine for a block-based ledger.
//!
//! The crate prices the execution cost of a block's transactions and settles
//! the gas cost of a single transaction:
//!
//! - [`fixed::Fixed64`] is the signed fixed-point scalar used for the
//!   network-wide fee multiplier.
//! - [`multiplier::FeeMultiplierUpdateHandler`] adjusts the multiplier once per
//!   block in response to congestion.
//! - [`converters`] holds the weight-to-fee and balance-to-vote converters.
//! - [`gas`] implements the two-phase gas metering protocol: reserve funds
//!   before execution, settle actual usage afterwards.
//! - [`calls`] classifies which dispatchable calls are gas metered.

use vstd::prelude::*;

pub mod arith;
pub mod calls;
pub mod converters;
pub mod gas;
pub mod fixed;
pub mod multiplier;

verus! {

/// Consumed block capacity, distinct from per-transaction gas.
pub type Weight = u32;

/// The ledger's native currency unit.
pub type Balance = u128;

/// Execution resource metered per transaction by the bytecode sandbox.
pub type Gas = u64;

/// Identifier of a fungible asset class on the ledger.
pub type AssetId = u32;

} // verus!
