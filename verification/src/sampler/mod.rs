//! Deterministic sampling of latencies and faults.
//!
//! Every draw is a pure function of a [`SampleKey`]: each call derives its own
//! random words from the key, so no state is shared between calls.
//!
//! - [`sample_latency`] picks the latency body of an operation.
//! - [`sample_fault`] decides whether, and with which errno, it fails.

pub mod fault;
pub mod key;
pub mod latency;

pub use self::fault::{pick_fault, sample_fault};
pub use self::key::{draw_of, SampleKey};
pub use self::latency::{clamp_latency_us, pick_body, sample_latency, LatencyDraw};
