//! Decision core of a stateless review bot.
//!
//! The bot polls a remote platform for open review items, decides which ones
//! to evaluate, asks an external text-generation service for a review, and
//! publishes the result as a comment. Because the process keeps no local
//! state, the per-item retry counter is persisted as a pair of boolean
//! markers attached to the remote item itself.
//!
//! This crate holds the verified decision logic: the marker state codec, the
//! eligibility filter, the precheck analyzer, the attempt tracker, and the
//! functions that compose the outgoing prompt and comment. The surrounding
//! process (argument handling, remote calls, pacing) performs the actions
//! these functions decide on.

pub mod compose;
pub mod errors;
pub mod filter;
pub mod item;
pub mod markers;
pub mod observe;
pub mod plan;
pub mod precheck;
pub mod tracker;
