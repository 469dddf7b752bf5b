//! # fusecraft
//!
//! The verified core of a deterministic FUSE filesystem simulator: the policy,
//! sampling, queueing and accounting decisions that make a mount behave like a
//! flaky, latency-prone, bandwidth-limited store, reproducibly.

pub mod binary64;
pub mod bits;
pub mod config;
pub mod content;
pub mod engine;
pub mod errno;
pub mod error;
pub mod events;
pub mod fuse;
pub mod limiter;
pub mod metrics;
pub mod namespace;
pub mod op;
pub mod sampler;
pub mod text;
