//! The event log of operations.
//!
//! Every operation yields one [`Event`]. Sinks take events without reporting
//! errors, so that the path of an operation never fails on account of its log.

use std::time::SystemTime;
use vstd::prelude::*;

use crate::op::FsOp;

verus! {

/// Result classification for an event.
#[derive(Copy, Clone, Debug, PartialEq, Eq, Structural)]
pub enum Outcome {
    /// The operation succeeded.
    Success,
    /// The operation failed.
    Error,
}

impl Outcome {
    /// The name of the outcome in event logs.
    pub fn as_str(self) -> (name: &'static str)
        ensures
            name@ == (match self {
                Outcome::Success => "ok"@,
                Outcome::Error => "error"@,
            }),
    {
        match self {
            Outcome::Success => "ok",
            Outcome::Error => "error",
        }
    }
}

/// A single op lifecycle event.
#[derive(Copy, Clone, Debug, PartialEq, Eq, Structural)]
pub struct Event {
    /// Wall-clock timestamp of completion, nanoseconds since UNIX epoch.
    pub ts_unix_nanos: u128,
    /// Monotonic sequence number assigned by the engine.
    pub seq: u64,
    /// The operation kind.
    pub op: FsOp,
    /// Target inode.
    pub ino: u64,
    /// Byte offset (0 for metadata ops).
    pub offset: u64,
    /// Request length in bytes (0 for metadata ops).
    pub len: usize,
    /// Whether the op succeeded or errored.
    pub outcome: Outcome,
    /// Errno, present only for Error outcomes.
    pub errno: Option<i32>,
    /// Time spent waiting for a concurrency slot.
    pub queue_wait_us: u64,
    /// Latency injected by the sampler.
    pub injected_latency_us: u64,
    /// Delay attributable to bandwidth throttling.
    pub bandwidth_delay_us: u64,
    /// Total wall-clock duration of the op from acquire to reply.
    pub total_duration_us: u64,
}

/// Consumer of [`Event`]s.
pub trait EventSink: Send + Sync + 'static {
    /// Record an event. Implementations must not panic and cannot report
    /// errors.
    fn emit(&self, event: &Event);
}

/// No-op sink that discards every event.
#[derive(Copy, Clone, Debug, PartialEq, Eq, Structural)]
pub struct NullEventSink;

impl EventSink for NullEventSink {
    fn emit(&self, _event: &Event) {
    }
}

impl Default for NullEventSink {
    fn default() -> (sink: Self)
        ensures
            sink == NullEventSink,
    {
        NullEventSink
    }
}

/// `std`'s `SystemTime::elapsed` on the UNIX epoch: the nanoseconds that have
/// passed since then, or none if the clock is set before it.
///
/// Claimed: a duration has fewer than 2^64 whole seconds. Nothing is claimed of
/// what the clock says.
#[verifier::external_body]
fn since_epoch() -> (nanos: Option<u128>)
    ensures
        nanos matches Some(passed) ==> passed < 0x1_0000_0000_0000_0000 * 1_000_000_000,
{
    match SystemTime::UNIX_EPOCH.elapsed() {
        Ok(passed) => Some(passed.as_nanos()),
        Err(_) => None,
    }
}

/// The timestamp for a reading of the clock: the nanoseconds since the UNIX
/// epoch, and zero for a clock that is set before it.
pub fn timestamp(since_epoch_nanos: Option<u128>) -> (ts_unix_nanos: u128)
    ensures
        ts_unix_nanos == (match since_epoch_nanos {
            Some(nanos) => nanos,
            None => 0,
        }),
{
    match since_epoch_nanos {
        Some(nanos) => nanos,
        None => 0,
    }
}

/// Current wall-clock time as nanoseconds since UNIX epoch.
pub fn now_unix_nanos() -> (ts_unix_nanos: u128)
    ensures
        ts_unix_nanos < 0x1_0000_0000_0000_0000 * 1_000_000_000,
{
    timestamp(since_epoch())
}

} // verus!
