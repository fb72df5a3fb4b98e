//! Timeline layout and state model for durable execution traces.
//!
//! A trace records one run of a multi-step workflow. This crate reads a trace
//! from JSON, keeps the currently loaded trace, places each step on a
//! horizontal timeline, and words elapsed time for people.
//!
//! Every function is verified against the contract it carries, but for the
//! calls into `chrono` and `serde_json`: those stand in `timestamp` and `json`,
//! one small function per call, and their contracts are taken on trust.

pub mod display;
pub mod duration;
pub mod json;
pub mod layout;
pub mod parse;
pub mod schema;
pub mod store;
pub mod text;
pub mod timestamp;
pub mod trace;
