//! Rule evaluation engine: declarative rules, pluggable evaluators, and
//! order-preserving batch evaluation with an explicit failure policy.
//!
//! The engine lives in [`rule_engine`]. Its values are in [`rule_types`],
//! [`config`] and [`error`]; its evaluators in [`evaluators`]. What the
//! engine promises is stated over the models in [`registry`], [`dispatch`]
//! and [`batch`], which also hold the laws that follow from them.
//! [`batch_run`] decides the course of a batch from wave to wave, for the
//! engine and for whoever attempts the rules of a wave in another way.
//! [`metrics`] aggregates results. The remaining modules hold the
//! vocabulary and the protocols of the collaborators around the engine.

use vstd::prelude::*;
use crate::error::SageXError;

pub mod batch;
pub mod batch_run;
pub mod clock;
pub mod config;
pub mod consciousness_layers;
pub mod dispatch;
pub mod error;
pub mod evaluators;
pub mod metrics;
pub mod realignment;
pub mod registry;
pub mod rule_engine;
pub mod rule_types;
pub mod sync_protocols;
pub mod warp_bridge;

verus! {

/// Version of the library.
pub const VERSION: &'static str = "0.1.0";

/// Prepares the library for use. There is nothing to set up, so it
/// always succeeds.
pub fn init() -> (outcome: Result<(), SageXError>)
    ensures
        outcome is Ok,
{
    Ok(())
}

/// Adds two counters; the caller guarantees that the sum fits.
pub fn add(left: u64, right: u64) -> (sum: u64)
    requires
        left + right <= u64::MAX,
    ensures
        sum == left + right,
{
    left + right
}

} // verus!
