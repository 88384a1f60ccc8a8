//! The decisions of a finality relay between two chains.
//!
//! A relay carries proofs of finality from a source chain to a target
//! chain, so that the target can follow what the source has finalized
//! without running a node of it. This crate holds what the relay decides:
//!
//! - [`selection`]: which finalized header is submitted next;
//! - [`pipeline`]: the steps from choosing a proof to its confirmation,
//!   with retries after failures that may pass ([`retry`]);
//! - [`finality`] and [`equivocation`]: the two pipelines of the relay;
//! - [`guard`]: when the relay must stop for good, and [`relay`]: that
//!   both pipelines then do stop;
//! - [`bridge`]: the bridge from Wococo to the Rococo bridge hub.
//!
//! Nothing here reads a chain, waits or sends. The caller does that: it
//! performs the action that a pipeline asks for and tells the pipeline
//! what came of it.

pub mod bridge;
pub mod equivocation;
pub mod error;
pub mod finality;
pub mod guard;
pub mod pipeline;
pub mod relay;
pub mod retry;
pub mod selection;
pub mod submission;
pub mod types;

pub use bridge::{WococoFinalityToBridgeHubRococo, WococoToBridgeHubRococoCliBridge};
