//! Checkpoint relay core for hierarchical subnets: a chain-agnostic
//! checkpoint data model, fallible conversions between the native model and
//! the two chain-runtime encodings, and the orchestration that builds,
//! completes and submits a checkpoint.

use vstd::prelude::*;

pub mod address;
pub mod amount;
pub mod checkpoint;
pub mod config;
pub mod errors;
pub mod evm;
pub mod lotus;
pub mod manager;
pub mod numeric;
pub mod pool;
pub mod subnet;

verus! {

/// A chain epoch (block height) as carried by the native checkpoint model.
pub type ChainEpoch = i64;

/// A method number of the account/actor-based runtime.
pub type MethodNum = u64;

} // verus!
