//! Concurrency and bandwidth limits.
//!
//! - [`BlockingLimiter`] decides who may run, who waits in the queue and who is
//!   turned away.
//! - [`BandwidthLimiter`] keeps the accounts of a token bucket.
//!
//! Both decide and account; putting threads to sleep and reading clocks is up
//! to their caller, who hands in what the clock said.

pub mod bandwidth;
pub mod concurrency;
pub mod ledger;
pub mod turns;

pub use self::bandwidth::{
    Balance, BandwidthLimiter, BandwidthModel, BandwidthStats, Reservation, TokenSum,
};
pub use self::concurrency::{
    Admission, BlockingLimiter, LimiterGuard, LimiterModel, LimiterStats, QueueTicket, WaitEvent,
    WaitStep,
};
