//! An indexer library for a blockchain event pipeline: it routes execution
//! outcomes to contract-domain handlers, extracts sentinel-prefixed JSON
//! events from log lines, transforms them into canonical delivery records,
//! and plans their delivery with per-sink atomicity guarantees.
use vstd::prelude::*;

pub mod codec;
pub mod config;
pub mod extract;
pub mod json;
pub mod models;
pub mod pipeline;
pub mod price;
pub mod report;
pub mod sequencer;
pub mod serialize;
pub mod sink;
pub mod strings;
pub mod transform;

verus! {

/// The sentinel that marks a log line as carrying a structured event.
pub const EVENT_PREFIX: &'static str = "EVENT_JSON:";

} // verus!
