//! Information-aggregation and response-formatting pipeline for a guild chat
//! bot: fallback resolution of optional metadata, channel tallies, latency
//! measurement, and assembly of structured response payloads.

pub mod handlers;
pub mod latency;
pub mod model;
pub mod payload;
pub mod render;
pub mod resolve;
pub mod tally;
