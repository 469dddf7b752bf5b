//! What a run of reservations adds up to.
//!
//! The balances of a token bucket are `binary64` numbers that the caller works
//! out. The laws on them hold for every way of rounding that is
//! [`faithful`]: an outcome may be off by some slack, but rounding neither
//! overfills the bucket nor takes whole tokens out of it. The counters depend on
//! no rounding.

use vstd::arithmetic::div_mod::lemma_div_is_ordered;
use vstd::arithmetic::div_mod::lemma_div_multiples_vanish;
use vstd::arithmetic::power2::lemma_pow2_pos;
use vstd::prelude::*;

use crate::binary64::{one_scaled, Binary64};
use crate::config::BandwidthProfile;
use crate::limiter::bandwidth::{in_debt, Balance, BandwidthModel, Reservation, TokenSum};

verus! {

/// One use of a bandwidth limiter.
pub enum BucketUse {
    /// A reservation, with the outcome of the sum that it owes, if it owes one.
    Reserve {
        /// The bytes that are reserved.
        bytes: u64,
        /// When.
        now_nanos: u128,
        /// The tokens that the sum comes to.
        tokens: Binary64,
        /// How long it takes to pay them off if they are a debt.
        debt_nanos: u128,
    },
    /// A look at the statistics, with the outcome of the refill before it.
    Refresh {
        /// When.
        now_nanos: u128,
        /// The tokens that the refill comes to.
        tokens: Binary64,
    },
}

impl BucketUse {
    /// The bytes that are reserved.
    pub open spec fn bytes(self) -> nat {
        match self {
            BucketUse::Reserve { bytes, .. } => bytes as nat,
            BucketUse::Refresh { .. } => 0,
        }
    }

    /// The clock reading.
    pub open spec fn now(self) -> u128 {
        match self {
            BucketUse::Reserve { now_nanos, .. } => now_nanos,
            BucketUse::Refresh { now_nanos, .. } => now_nanos,
        }
    }

    /// The outcome that is handed in.
    pub open spec fn tokens(self) -> Binary64 {
        match self {
            BucketUse::Reserve { tokens, .. } => tokens,
            BucketUse::Refresh { tokens, .. } => tokens,
        }
    }

    /// The sum that this owes in the given state, if it owes one.
    pub open spec fn sum_in(self, state: BandwidthModel) -> Option<TokenSum> {
        match self {
            BucketUse::Reserve { bytes, now_nanos, .. } => match state.reserved_at(
                bytes,
                now_nanos,
            ).0 {
                Reservation::Owed(sum) => Some(sum),
                Reservation::Free => None,
            },
            BucketUse::Refresh { now_nanos, .. } => Some(state.sum_at(now_nanos, 0)),
        }
    }

    /// Whether this finds fewer tokens than it asks for.
    pub open spec fn throttled_in(self, state: BandwidthModel) -> bool {
        self is Reserve && self.sum_in(state) is Some && in_debt(self.tokens())
    }

    /// How long the caller is told to wait, in nanoseconds.
    pub open spec fn wait_in(self, state: BandwidthModel) -> u128 {
        match self {
            BucketUse::Reserve { debt_nanos, .. } if self.throttled_in(state) => debt_nanos,
            _ => 0,
        }
    }

    /// The state after this.
    pub open spec fn after(self, state: BandwidthModel) -> BandwidthModel {
        match self {
            BucketUse::Reserve { bytes, now_nanos, tokens, .. } => {
                let (reservation, next) = state.reserved_at(bytes, now_nanos);
                match reservation {
                    Reservation::Owed(_) => next.settled(tokens),
                    Reservation::Free => next,
                }
            },
            BucketUse::Refresh { now_nanos, tokens } => state.refreshing(now_nanos).refreshed(
                tokens,
            ),
        }
    }
}

/// The state after a run of uses.
pub open spec fn run(start: BandwidthModel, uses: Seq<BucketUse>) -> BandwidthModel
    decreases uses.len(),
{
    if uses.len() == 0 {
        start
    } else {
        uses.last().after(run(start, uses.drop_last()))
    }
}

/// The bytes that a run reserves.
pub open spec fn bytes_of(uses: Seq<BucketUse>) -> nat
    decreases uses.len(),
{
    if uses.len() == 0 {
        0
    } else {
        bytes_of(uses.drop_last()) + uses.last().bytes()
    }
}

/// The number of reservations in a run.
pub open spec fn reservations_of(uses: Seq<BucketUse>) -> nat
    decreases uses.len(),
{
    if uses.len() == 0 {
        0
    } else {
        reservations_of(uses.drop_last()) + if uses.last() is Reserve {
            1nat
        } else {
            0nat
        }
    }
}

/// The number of reservations in a run that find fewer tokens than they ask for.
pub open spec fn throttled_of(start: BandwidthModel, uses: Seq<BucketUse>) -> nat
    decreases uses.len(),
{
    if uses.len() == 0 {
        0
    } else {
        throttled_of(start, uses.drop_last()) + if uses.last().throttled_in(
            run(start, uses.drop_last()),
        ) {
            1nat
        } else {
            0nat
        }
    }
}

/// A balance, counted in units of 2^-1074 bytes.
pub open spec fn worth(balance: Balance, burst_bytes: u64) -> int {
    match balance {
        Balance::Full => burst_bytes * one_scaled(),
        Balance::Tokens(tokens) => tokens.scaled(),
    }
}

impl TokenSum {
    /// The exact outcome, counted in units of 2^-1074 bytes and nanoseconds per
    /// second, in which it is a whole number.
    pub open spec fn exact(self) -> int {
        let start = 1_000_000_000 * worth(self.balance, self.burst_bytes);
        let brim = 1_000_000_000 * (self.burst_bytes * one_scaled());
        let filled = match self.refill_nanos {
            Some(nanos) => if start + self.rate.scaled() * nanos < brim {
                start + self.rate.scaled() * nanos
            } else {
                brim
            },
            None => start,
        };
        filled - 1_000_000_000 * (self.bytes * one_scaled())
    }

    /// The whole tokens at the start.
    pub open spec fn whole(self) -> int {
        worth(self.balance, self.burst_bytes) / one_scaled()
    }
}

/// Whether `tokens` is the outcome of a sum but for rounding: it is off by at
/// most `slack`, does not exceed the burst allowance, and whole tokens that are
/// there at the start and not taken out are there at the end.
///
/// With burst allowances up to 2^53 this is so of sums that are worked out with
/// correctly rounded operations.
pub open spec fn faithful(sum: TokenSum, tokens: Binary64, slack: nat) -> bool {
    &&& tokens.finite()
    &&& tokens.scaled() <= sum.burst_bytes * one_scaled()
    &&& sum.bytes <= sum.whole() ==> (sum.whole() - sum.bytes) * one_scaled() <= tokens.scaled()
    &&& sum.exact() - 1_000_000_000 * slack <= 1_000_000_000 * tokens.scaled() <= sum.exact()
        + 1_000_000_000 * slack
}

/// Whether every sum in a run has a faithful outcome.
pub open spec fn faithful_run(start: BandwidthModel, uses: Seq<BucketUse>, slack: nat) -> bool
    decreases uses.len(),
{
    uses.len() > 0 ==> {
        &&& faithful_run(start, uses.drop_last(), slack)
        &&& uses.last().sum_in(run(start, uses.drop_last())) matches Some(sum) ==> faithful(
            sum,
            uses.last().tokens(),
            slack,
        )
    }
}

/// Whether waiting for `debt_nanos` pays a balance off, but for `slack`.
pub open spec fn pays_off(
    tokens: Binary64,
    rate: Binary64,
    debt_nanos: u128,
    slack: nat,
) -> bool {
    0 <= 1_000_000_000 * tokens.scaled() + rate.scaled() * debt_nanos + 1_000_000_000 * slack
}

// --- Laws ---

/// The counters depend on no rounding: bytes add up until they saturate,
/// exactly the reservations that found too few tokens count as throttled, of
/// which there are no more than reservations, and no sum is left pending.
pub proof fn counters_follow_the_run(
    profile: BandwidthProfile,
    built_nanos: u128,
    uses: Seq<BucketUse>,
)
    ensures
        ({
            let start = BandwidthModel::fresh(profile, built_nanos);
            let end = run(start, uses);
            &&& end.reserved == if bytes_of(uses) > u64::MAX {
                u64::MAX as nat
            } else {
                bytes_of(uses)
            }
            &&& end.throttled == throttled_of(start, uses)
            &&& end.throttled <= reservations_of(uses)
            &&& end.pending is None
            &&& end.rate == profile.bytes_per_sec
            &&& end.burst_bytes == profile.burst_bytes
            &&& built_nanos <= end.last_nanos
        }),
    decreases uses.len(),
{
    if uses.len() > 0 {
        counters_follow_the_run(profile, built_nanos, uses.drop_last());
    }
}

/// Every reserved byte is taken out of the bucket exactly once: what is left is
/// the burst allowance less all bytes, plus at most what accrues in the time
/// that has passed, but for the slack of each outcome.
pub proof fn every_byte_is_taken_out_once(
    profile: BandwidthProfile,
    built_nanos: u128,
    uses: Seq<BucketUse>,
    slack: nat,
)
    requires
        profile.bytes_per_sec.finite(),
        profile.bytes_per_sec.above(0),
        faithful_run(BandwidthModel::fresh(profile, built_nanos), uses, slack),
    ensures
        ({
            let end = run(BandwidthModel::fresh(profile, built_nanos), uses);
            let left = worth(end.balance, end.burst_bytes);
            let less = (profile.burst_bytes - bytes_of(uses)) * one_scaled();
            &&& less - uses.len() * slack <= left
            &&& 1_000_000_000 * left <= 1_000_000_000 * less + profile.bytes_per_sec.scaled() * (
            end.last_nanos - built_nanos) + 1_000_000_000 * (uses.len() * slack)
        }),
    decreases uses.len(),
{
    let start = BandwidthModel::fresh(profile, built_nanos);
    counters_follow_the_run(profile, built_nanos, uses);
    if uses.len() > 0 {
        let before = uses.drop_last();
        every_byte_is_taken_out_once(profile, built_nanos, before, slack);
        tokens_stay_within_the_burst(profile, built_nanos, before, slack);
        counters_follow_the_run(profile, built_nanos, before);
        let state = run(start, before);
        let end = run(start, uses);
        let rate = profile.bytes_per_sec.scaled();
        let bytes = uses.last().bytes();
        let passed = end.last_nanos - state.last_nanos;
        assert((before.len() + 1) * slack == before.len() * slack + slack) by (nonlinear_arith);
        assert((profile.burst_bytes - bytes_of(uses)) * one_scaled() == (profile.burst_bytes
            - bytes_of(before)) * one_scaled() - bytes * one_scaled()) by (nonlinear_arith)
            requires
                bytes_of(uses) == bytes_of(before) + bytes,
        ;
        assert(rate * (end.last_nanos - built_nanos) == rate * (state.last_nanos - built_nanos)
            + rate * passed) by (nonlinear_arith)
            requires
                passed == end.last_nanos - state.last_nanos,
        ;
        assert(0 <= rate * passed) by (nonlinear_arith)
            requires
                rate > 0,
                passed >= 0,
        ;
        assert(0nat * one_scaled() == 0) by (nonlinear_arith);
    } else {
        assert(0 * slack == 0) by (nonlinear_arith);
        assert(profile.bytes_per_sec.scaled() * 0 == 0) by (nonlinear_arith);
    }
}

/// However much time has passed, there are never more tokens than the burst
/// allowance, and never fewer than none to be taken.
pub proof fn tokens_stay_within_the_burst(
    profile: BandwidthProfile,
    built_nanos: u128,
    uses: Seq<BucketUse>,
    slack: nat,
)
    requires
        profile.bytes_per_sec.finite(),
        faithful_run(BandwidthModel::fresh(profile, built_nanos), uses, slack),
    ensures
        ({
            let end = run(BandwidthModel::fresh(profile, built_nanos), uses);
            let brim = profile.burst_bytes * one_scaled();
            &&& worth(end.balance, end.burst_bytes) <= brim
            &&& 0 <= worth(end.available(), end.burst_bytes) <= brim
            &&& end.balance matches Balance::Tokens(tokens) ==> tokens.finite()
        }),
    decreases uses.len(),
{
    counters_follow_the_run(profile, built_nanos, uses);
    lemma_pow2_pos(1074);
    assert(0 <= profile.burst_bytes * one_scaled()) by (nonlinear_arith)
        requires
            0 < one_scaled(),
    ;
    assert((Binary64 { bits: 0 }).scaled() == 0);
    if uses.len() > 0 {
        tokens_stay_within_the_burst(profile, built_nanos, uses.drop_last(), slack);
        counters_follow_the_run(profile, built_nanos, uses.drop_last());
    }
}

/// As long as no more bytes are reserved than the burst allowance, nobody
/// waits.
pub proof fn the_burst_is_free(
    profile: BandwidthProfile,
    built_nanos: u128,
    uses: Seq<BucketUse>,
    slack: nat,
)
    requires
        profile.bytes_per_sec.finite(),
        faithful_run(BandwidthModel::fresh(profile, built_nanos), uses, slack),
        bytes_of(uses) <= profile.burst_bytes,
    ensures
        ({
            let start = BandwidthModel::fresh(profile, built_nanos);
            let end = run(start, uses);
            &&& (profile.burst_bytes - bytes_of(uses)) * one_scaled() <= worth(
                end.balance,
                end.burst_bytes,
            )
            &&& uses.len() > 0 ==> uses.last().wait_in(run(start, uses.drop_last())) == 0
            &&& end.throttled == 0
        }),
    decreases uses.len(),
{
    let start = BandwidthModel::fresh(profile, built_nanos);
    counters_follow_the_run(profile, built_nanos, uses);
    lemma_pow2_pos(1074);
    if uses.len() > 0 {
        let before = uses.drop_last();
        the_burst_is_free(profile, built_nanos, before, slack);
        counters_follow_the_run(profile, built_nanos, before);
        let state = run(start, before);
        let left = profile.burst_bytes - bytes_of(before);
        let rest = profile.burst_bytes - bytes_of(uses);
        let whole = worth(state.balance, state.burst_bytes) / one_scaled();
        lemma_div_is_ordered(
            left * one_scaled(),
            worth(state.balance, state.burst_bytes),
            one_scaled(),
        );
        lemma_div_multiples_vanish(left, one_scaled());
        assert(one_scaled() * left == left * one_scaled()) by (nonlinear_arith);
        assert(left <= whole);
        let bytes = uses.last().bytes();
        assert(0 <= rest * one_scaled() <= (whole - bytes) * one_scaled()) by (nonlinear_arith)
            requires
                0 <= rest <= whole - bytes,
                0 < one_scaled(),
        ;
        assert(rest * one_scaled() <= left * one_scaled()) by (nonlinear_arith)
            requires
                rest <= left,
                0 < one_scaled(),
        ;
    }
}

/// Callers that wait as they are told never exceed the rate plus one burst, but
/// for the slack of each outcome and of the last wait.
pub proof fn rate_and_burst_bound_the_bytes(
    profile: BandwidthProfile,
    built_nanos: u128,
    uses: Seq<BucketUse>,
    slack: nat,
)
    requires
        profile.bytes_per_sec.finite(),
        profile.bytes_per_sec.above(0),
        faithful_run(BandwidthModel::fresh(profile, built_nanos), uses, slack),
        uses.len() > 0,
        uses.last() matches BucketUse::Reserve { bytes, tokens, debt_nanos, .. } && bytes > 0
            && pays_off(tokens, profile.bytes_per_sec, debt_nanos, slack),
        run(BandwidthModel::fresh(profile, built_nanos), uses.drop_last()).last_nanos
            <= uses.last().now(),
    ensures
        ({
            let start = BandwidthModel::fresh(profile, built_nanos);
            let wait = uses.last().wait_in(run(start, uses.drop_last()));
            1_000_000_000 * (bytes_of(uses) * one_scaled()) <= 1_000_000_000 * (
            profile.burst_bytes * one_scaled()) + profile.bytes_per_sec.scaled() * (
            uses.last().now() + wait - built_nanos) + 1_000_000_000 * ((uses.len() + 1) * slack)
        }),
{
    let start = BandwidthModel::fresh(profile, built_nanos);
    every_byte_is_taken_out_once(profile, built_nanos, uses, slack);
    counters_follow_the_run(profile, built_nanos, uses);
    counters_follow_the_run(profile, built_nanos, uses.drop_last());
    let wait = uses.last().wait_in(run(start, uses.drop_last()));
    let now = uses.last().now();
    let rate = profile.bytes_per_sec.scaled();
    assert((uses.len() + 1) * slack == uses.len() * slack + slack) by (nonlinear_arith);
    assert((profile.burst_bytes - bytes_of(uses)) * one_scaled() == profile.burst_bytes
        * one_scaled() - bytes_of(uses) * one_scaled()) by (nonlinear_arith);
    assert(rate * (now + wait - built_nanos) == rate * (now - built_nanos) + rate * wait)
        by (nonlinear_arith);
    assert(wait == 0 ==> rate * wait == 0) by (nonlinear_arith);
}

/// The bucket refills with time, whatever is in it: after any use, what is left
/// is what was there and what has accrued since the last refill, up to the burst
/// allowance, less the bytes of the use, but for the slack of the outcome.
pub proof fn time_refills_the_bucket(state: BandwidthModel, step: BucketUse, slack: nat)
    requires
        state.rate.finite(),
        state.rate.scaled() > 0,
        state.last_nanos <= step.now(),
        step is Reserve ==> step.bytes() > 0,
        step.sum_in(state) matches Some(sum) ==> faithful(sum, step.tokens(), slack),
        worth(state.balance, state.burst_bytes) <= state.burst_bytes * one_scaled(),
    ensures
        ({
            let there = 1_000_000_000 * worth(state.balance, state.burst_bytes);
            let accrued = state.rate.scaled() * (step.now() - state.last_nanos);
            let brim = 1_000_000_000 * (state.burst_bytes * one_scaled());
            let filled = if there + accrued < brim {
                there + accrued
            } else {
                brim
            };
            let taken = 1_000_000_000 * (step.bytes() * one_scaled());
            let end = step.after(state);
            let left = 1_000_000_000 * worth(end.balance, end.burst_bytes);
            &&& filled - taken - 1_000_000_000 * slack <= left
            &&& left <= filled - taken + 1_000_000_000 * slack
            &&& end.last_nanos == step.now()
        }),
{
    let passed = step.now() - state.last_nanos;
    assert(passed == 0 ==> state.rate.scaled() * passed == 0) by (nonlinear_arith);
    assert(0nat * one_scaled() == 0) by (nonlinear_arith);
}

/// A debt is paid off by waiting: a reservation that is made after the told wait
/// of the one before is short of its own bytes at most, but for the slack of both
/// outcomes.
pub proof fn waiting_pays_the_debt_off(
    state: BandwidthModel,
    first: BucketUse,
    second: BucketUse,
    slack: nat,
)
    requires
        state.rate.finite(),
        state.rate.scaled() > 0,
        state.last_nanos <= first.now(),
        worth(state.balance, state.burst_bytes) <= state.burst_bytes * one_scaled(),
        first is Reserve,
        first.bytes() > 0,
        first.sum_in(state) matches Some(sum) ==> faithful(sum, first.tokens(), slack),
        first matches BucketUse::Reserve { tokens, debt_nanos, .. } && pays_off(
            tokens,
            state.rate,
            debt_nanos,
            slack,
        ),
        second is Reserve,
        second.bytes() > 0,
        first.now() + first.wait_in(state) <= second.now(),
        second.sum_in(first.after(state)) matches Some(sum) ==> faithful(
            sum,
            second.tokens(),
            slack,
        ),
    ensures
        ({
            let end = second.after(first.after(state));
            -(second.bytes() * one_scaled()) - 2 * slack <= worth(end.balance, end.burst_bytes)
        }),
{
    let middle = first.after(state);
    let rate = state.rate.scaled();
    let wait = first.wait_in(state);
    let left = worth(middle.balance, middle.burst_bytes);
    assert(first.sum_in(state) is Some);
    assert(left == first.tokens().scaled());
    time_refills_the_bucket(state, first, slack);
    time_refills_the_bucket(middle, second, slack);
    lemma_pow2_pos(1074);
    let passed = second.now() - first.now();
    assert(rate * wait <= rate * passed) by (nonlinear_arith)
        requires
            rate > 0,
            wait <= passed,
    ;
    assert(wait == 0 ==> rate * wait == 0) by (nonlinear_arith);
    assert(0 <= state.burst_bytes * one_scaled()) by (nonlinear_arith)
        requires
            0 < one_scaled(),
    ;
    assert(0 <= 1_000_000_000 * left + rate * passed + 1_000_000_000 * slack);
}

} // verus!
