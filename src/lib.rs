//! Pluggable zero-knowledge proving backends: a registry of backends keyed by
//! identifier, a content-addressed cache of compiled programs, a bounded
//! admission gate for proving calls, and the proving adapter's protocol.
pub mod types;
pub mod registry;
pub mod digest;
pub mod cache;
pub mod gate;
pub mod sp1_plug;
