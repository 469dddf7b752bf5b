//! Token-bucket bandwidth limiter.
//!
//! The bucket fills at a steady rate up to a burst allowance, and every
//! reservation takes its bytes out of it. A bucket may go into debt; the one
//! who put it there waits until the debt is paid off.
//!
//! The token balance is a `binary64` number. What is added to it and taken from
//! it is laid out as a [`TokenSum`] for the caller to work out, who then hands
//! the outcome to [`BandwidthLimiter::settle`]. Until that is done the sum is
//! pending, and nothing else is taken out of the bucket.

use vstd::prelude::*;

use crate::binary64::Binary64;
use crate::config::BandwidthProfile;

verus! {

/// The tokens in a bucket.
#[derive(Copy, Clone, Debug, PartialEq, Eq, Structural)]
pub enum Balance {
    /// As many as the burst allowance.
    Full,
    /// This many.
    Tokens(Binary64),
}

/// A sum over the tokens of a bucket.
///
/// The outcome is `balance`, plus what accrues at `rate` bytes per second in
/// `refill_nanos` (if any time is given) but at most `burst_bytes`, minus
/// `bytes`.
#[derive(Copy, Clone, Debug, PartialEq, Eq, Structural)]
pub struct TokenSum {
    /// The tokens at the start.
    pub balance: Balance,
    /// The refill rate in bytes per second.
    pub rate: Binary64,
    /// The most that a refill can reach.
    pub burst_bytes: u64,
    /// The time to refill for, in nanoseconds; none if nothing accrues.
    pub refill_nanos: Option<u128>,
    /// The bytes to take out.
    pub bytes: u64,
}

/// The answer to a request for bandwidth.
#[derive(Copy, Clone, Debug, PartialEq, Eq, Structural)]
pub enum Reservation {
    /// The caller may go on at once.
    Free,
    /// The balance after this sum decides.
    Owed(TokenSum),
}

/// Statistics snapshot for a [`BandwidthLimiter`].
#[derive(Copy, Clone, Debug, PartialEq, Eq, Structural)]
pub struct BandwidthStats {
    /// Current token balance; zero where the bucket is in debt.
    pub tokens_available: Balance,
    /// Configured refill rate in bytes per second.
    pub bytes_per_sec: Binary64,
    /// Configured burst capacity in bytes.
    pub burst_bytes: u64,
    /// Total bytes reserved since creation.
    pub total_bytes_reserved: u64,
    /// Total number of reservations that found the bucket in debt.
    pub total_throttled: u64,
}

/// A token-bucket bandwidth limiter.
///
/// If the rate is not above zero, nothing is throttled.
#[derive(Debug)]
pub struct BandwidthLimiter {
    rate: Binary64,
    burst_bytes: u64,
    balance: Balance,
    last_nanos: u128,
    pending: Option<TokenSum>,
    total_bytes_reserved: u64,
    total_throttled: u64,
}

/// The state of a bandwidth limiter.
#[verifier::ext_equal]
pub struct BandwidthModel {
    /// The refill rate in bytes per second.
    pub rate: Binary64,
    /// The burst allowance.
    pub burst_bytes: u64,
    /// The tokens in the bucket.
    pub balance: Balance,
    /// When the bucket was last refilled.
    pub last_nanos: u128,
    /// The sum whose outcome is still to be handed in, if there is one.
    pub pending: Option<TokenSum>,
    /// How many bytes were reserved.
    pub reserved: nat,
    /// How many reservations had to wait.
    pub throttled: nat,
}

impl BandwidthModel {
    /// A full bucket that nobody has used yet.
    pub open spec fn fresh(profile: BandwidthProfile, now_nanos: u128) -> BandwidthModel {
        BandwidthModel {
            rate: profile.bytes_per_sec,
            burst_bytes: profile.burst_bytes,
            balance: Balance::Full,
            last_nanos: now_nanos,
            pending: None,
            reserved: 0,
            throttled: 0,
        }
    }

    /// The time to refill for at `now_nanos`, if anything accrues.
    pub open spec fn refill_time(self, now_nanos: u128) -> Option<u128> {
        if now_nanos > self.last_nanos && self.rate.above(0) {
            Some((now_nanos - self.last_nanos) as u128)
        } else {
            None
        }
    }

    /// The sum that yields the tokens at `now_nanos` with `bytes` taken out.
    pub open spec fn sum_at(self, now_nanos: u128, bytes: u64) -> TokenSum {
        TokenSum {
            balance: self.balance,
            rate: self.rate,
            burst_bytes: self.burst_bytes,
            refill_nanos: self.refill_time(now_nanos),
            bytes,
        }
    }

    /// With the clock moved on to `now_nanos`, never back.
    pub open spec fn clocked(self, now_nanos: u128) -> BandwidthModel {
        BandwidthModel {
            last_nanos: if now_nanos > self.last_nanos {
                now_nanos
            } else {
                self.last_nanos
            },
            ..self
        }
    }

    /// With `bytes` more accounted for.
    pub open spec fn accounted(self, bytes: nat) -> BandwidthModel {
        BandwidthModel {
            reserved: if self.reserved + bytes > u64::MAX {
                u64::MAX as nat
            } else {
                self.reserved + bytes
            },
            ..self
        }
    }

    /// What a reservation of `bytes` at `now_nanos` is answered, and the state
    /// after it.
    pub open spec fn reserved_at(self, bytes: u64, now_nanos: u128) -> (
        Reservation,
        BandwidthModel,
    ) {
        if bytes == 0 {
            (Reservation::Free, self)
        } else if !self.throttles() {
            (Reservation::Free, self.accounted(bytes as nat))
        } else {
            let sum = self.sum_at(now_nanos, bytes);
            (
                Reservation::Owed(sum),
                BandwidthModel {
                    pending: Some(sum),
                    ..self.accounted(bytes as nat).clocked(now_nanos)
                },
            )
        }
    }

    /// Whether this sum of a reservation is still to be settled.
    pub open spec fn owes(self, sum: TokenSum) -> bool {
        self.pending == Some(sum) && sum.bytes > 0
    }

    /// After a sum that a reservation owed has come out at `tokens`.
    pub open spec fn settled(self, tokens: Binary64) -> BandwidthModel {
        BandwidthModel {
            balance: Balance::Tokens(tokens),
            pending: None,
            throttled: self.throttled + if in_debt(tokens) {
                1nat
            } else {
                0nat
            },
            ..self
        }
    }

    /// While the balance is brought up to the time `now_nanos`.
    pub open spec fn refreshing(self, now_nanos: u128) -> BandwidthModel {
        BandwidthModel {
            pending: Some(self.sum_at(now_nanos, 0)),
            ..self.clocked(now_nanos)
        }
    }

    /// After the balance was brought up to date and has come out at `tokens`.
    pub open spec fn refreshed(self, tokens: Binary64) -> BandwidthModel {
        BandwidthModel { balance: Balance::Tokens(tokens), pending: None, ..self }
    }

    /// The tokens that are there to be taken: none where the bucket is in debt.
    pub open spec fn available(self) -> Balance {
        match self.balance {
            Balance::Tokens(tokens) if !tokens.above(0) => Balance::Tokens(Binary64 { bits: 0 }),
            balance => balance,
        }
    }

    /// Whether this limiter can ever make anyone wait.
    pub open spec fn throttles(self) -> bool {
        self.rate.not_a_number() || self.rate.above(0)
    }
}

impl View for BandwidthLimiter {
    type V = BandwidthModel;

    closed spec fn view(&self) -> BandwidthModel {
        BandwidthModel {
            rate: self.rate,
            burst_bytes: self.burst_bytes,
            balance: self.balance,
            last_nanos: self.last_nanos,
            pending: self.pending,
            reserved: self.total_bytes_reserved as nat,
            throttled: self.total_throttled as nat,
        }
    }
}

/// Whether a balance is a debt, or no number.
pub open spec fn in_debt(tokens: Binary64) -> bool {
    tokens.not_a_number() || tokens.below(0)
}

impl BandwidthLimiter {
    /// Create a new bandwidth limiter from a [`BandwidthProfile`], at the time
    /// `now_nanos`. The bucket starts full.
    pub fn new(profile: &BandwidthProfile, now_nanos: u128) -> (limiter: Self)
        ensures
            limiter@ == BandwidthModel::fresh(*profile, now_nanos),
    {
        BandwidthLimiter {
            rate: profile.bytes_per_sec,
            burst_bytes: profile.burst_bytes,
            balance: Balance::Full,
            last_nanos: now_nanos,
            pending: None,
            total_bytes_reserved: 0,
            total_throttled: 0,
        }
    }

    /// Move the clock on, and say for how long to refill.
    fn refill(&mut self, now_nanos: u128) -> (refill_nanos: Option<u128>)
        ensures
            refill_nanos == old(self)@.refill_time(now_nanos),
            final(self)@ == old(self)@.clocked(now_nanos),
    {
        if now_nanos <= self.last_nanos {
            return None;
        }
        let elapsed: u128 = now_nanos - self.last_nanos;
        self.last_nanos = now_nanos;
        if self.rate.gt_zero() {
            Some(elapsed)
        } else {
            None
        }
    }

    /// Reserve `bytes` worth of bandwidth at the time `now_nanos`.
    ///
    /// A reservation of no bytes touches nothing and never waits, even if the
    /// bucket is in debt. One that owes a [`TokenSum`] is completed by
    /// [`BandwidthLimiter::settle`] before the next one is made.
    pub fn reserve(&mut self, bytes: u64, now_nanos: u128) -> (reservation: Reservation)
        requires
            old(self)@.pending is None,
        ensures
            (reservation, final(self)@) == old(self)@.reserved_at(bytes, now_nanos),
            final(self)@.pending is Some <==> reservation is Owed,
    {
        if bytes == 0 {
            return Reservation::Free;
        }
        // Bytes are accounted for even where nothing is throttled.
        self.total_bytes_reserved = self.total_bytes_reserved.saturating_add(bytes);
        if self.rate.le_zero() {
            return Reservation::Free;
        }
        let balance = self.balance;
        let refill_nanos = self.refill(now_nanos);
        let sum = TokenSum {
            balance,
            rate: self.rate,
            burst_bytes: self.burst_bytes,
            refill_nanos,
            bytes,
        };
        self.pending = Some(sum);
        Reservation::Owed(sum)
    }

    /// Take over the outcome of a [`TokenSum`] that a reservation owed, and say
    /// how long the caller must wait, in nanoseconds.
    ///
    /// `debt_nanos` is the time that it takes to pay the balance off if it is a
    /// debt.
    pub fn settle(&mut self, tokens: Binary64, debt_nanos: u128) -> (wait_nanos: u128)
        requires
            old(self)@.pending matches Some(sum) && sum.bytes > 0,
            old(self)@.throttled < u64::MAX,
        ensures
            wait_nanos == (if in_debt(tokens) {
                debt_nanos
            } else {
                0
            }),
            final(self)@ == old(self)@.settled(tokens),
    {
        self.balance = Balance::Tokens(tokens);
        self.pending = None;
        if tokens.ge_zero() {
            0
        } else {
            self.total_throttled = self.total_throttled + 1;
            debt_nanos
        }
    }

    /// Whether the counter of throttled reservations can count one more.
    pub fn can_count(&self) -> (room: bool)
        ensures
            room == (self@.throttled < u64::MAX),
    {
        self.total_throttled < u64::MAX
    }

    /// Whether no sum is pending.
    pub fn is_settled(&self) -> (settled: bool)
        ensures
            settled == (self@.pending is None),
    {
        self.pending.is_none()
    }

    /// The sum that brings the balance up to the time `now_nanos`. Its outcome
    /// is taken over with [`BandwidthLimiter::refreshed`].
    pub fn refresh(&mut self, now_nanos: u128) -> (sum: TokenSum)
        requires
            old(self)@.pending is None,
        ensures
            sum == old(self)@.sum_at(now_nanos, 0),
            final(self)@ == old(self)@.refreshing(now_nanos),
    {
        let balance = self.balance;
        let refill_nanos = self.refill(now_nanos);
        let sum = TokenSum {
            balance,
            rate: self.rate,
            burst_bytes: self.burst_bytes,
            refill_nanos,
            bytes: 0,
        };
        self.pending = Some(sum);
        sum
    }

    /// Take over the outcome of [`BandwidthLimiter::refresh`].
    pub fn refreshed(&mut self, tokens: Binary64)
        requires
            old(self)@.pending matches Some(sum) && sum.bytes == 0,
        ensures
            final(self)@ == old(self)@.refreshed(tokens),
    {
        self.balance = Balance::Tokens(tokens);
        self.pending = None;
    }

    /// Return a snapshot of the limiter's statistics.
    ///
    /// The tokens are those that the last reservation or refresh left. To have
    /// them for the present time, [`BandwidthLimiter::refresh`] comes first.
    pub fn stats(&self) -> (stats: BandwidthStats)
        ensures
            stats.tokens_available == self@.available(),
            stats.bytes_per_sec == self@.rate,
            stats.burst_bytes == self@.burst_bytes,
            stats.total_bytes_reserved == self@.reserved,
            stats.total_throttled == self@.throttled,
    {
        let tokens_available = match self.balance {
            Balance::Full => Balance::Full,
            Balance::Tokens(tokens) => if tokens.gt_zero() {
                Balance::Tokens(tokens)
            } else {
                Balance::Tokens(Binary64 { bits: 0 })
            },
        };
        BandwidthStats {
            tokens_available,
            bytes_per_sec: self.rate,
            burst_bytes: self.burst_bytes,
            total_bytes_reserved: self.total_bytes_reserved,
            total_throttled: self.total_throttled,
        }
    }
}

// --- Laws ---

/// A reservation of no bytes changes nothing and never waits, even if the
/// bucket is in debt.
pub proof fn reserving_nothing_is_free(limiter: BandwidthModel, now_nanos: u128)
    ensures
        limiter.reserved_at(0, now_nanos) == (Reservation::Free, limiter),
{
}

/// Without a positive rate nothing ever waits, but bytes are accounted for.
pub proof fn no_rate_no_throttling(limiter: BandwidthModel, bytes: u64, now_nanos: u128)
    requires
        limiter.rate.finite(),
        limiter.rate.scaled() <= 0,
    ensures
        limiter.reserved_at(bytes, now_nanos).0 == Reservation::Free,
        limiter.reserved_at(bytes, now_nanos).1.balance == limiter.balance,
        limiter.reserved_at(bytes, now_nanos).1.throttled == limiter.throttled,
        limiter.reserved_at(bytes, now_nanos).1.reserved == limiter.accounted(bytes as nat).reserved
            || bytes == 0,
{
}

/// One sum is settled at a time, and the next one starts from where it ended.
pub proof fn sums_follow_one_another(
    limiter: BandwidthModel,
    bytes: u64,
    now_nanos: u128,
    tokens: Binary64,
    later_nanos: u128,
    more: u64,
)
    requires
        limiter.pending is None,
    ensures
        ({
            let (reservation, open) = limiter.reserved_at(bytes, now_nanos);
            match reservation {
                Reservation::Owed(sum) => {
                    &&& sum.bytes == bytes
                    &&& sum.balance == limiter.balance
                    &&& open.owes(sum)
                    &&& open.settled(tokens).pending is None
                    &&& open.settled(tokens).sum_at(later_nanos, more).balance
                        == Balance::Tokens(tokens)
                },
                Reservation::Free => open.pending is None && open.balance == limiter.balance,
            }
        }),
{
}

/// Two reservations account for as many bytes as one of both amounts.
pub proof fn accounts_add_up(limiter: BandwidthModel, a: nat, b: nat)
    requires
        limiter.reserved <= u64::MAX,
    ensures
        limiter.accounted(a).accounted(b) == limiter.accounted(a + b),
{
}

/// What accrues between two points in time is counted once: moving the clock
/// on in two steps leaves nothing more to refill, and splits the time between
/// them.
pub proof fn time_is_refilled_once(limiter: BandwidthModel, first: u128, second: u128)
    requires
        limiter.last_nanos < first < second,
        limiter.rate.above(0),
    ensures
        limiter.clocked(first).refill_time(first) is None,
        limiter.clocked(first).clocked(second) == limiter.clocked(second),
        limiter.refill_time(first)->0 + limiter.clocked(first).refill_time(second)->0
            == limiter.refill_time(second)->0,
{
}

/// A balance is a debt exactly if it is less than nothing, or no number.
pub proof fn debts_are_less_than_nothing(tokens: Binary64)
    ensures
        tokens.finite() ==> (in_debt(tokens) <==> tokens.scaled() < 0),
        tokens.not_a_number() ==> in_debt(tokens),
        tokens.bits == 0x7ff0_0000_0000_0000 ==> !in_debt(tokens),
        tokens.bits == 0xfff0_0000_0000_0000 ==> in_debt(tokens),
{
}

/// With a positive rate, every reservation is charged for its own bytes, against
/// the balance that is there and all the time that has passed since the last
/// refill, whether the bucket is in debt or not; and that time is then used up.
pub proof fn reservations_are_charged_in_full(
    limiter: BandwidthModel,
    bytes: u64,
    now_nanos: u128,
)
    requires
        limiter.rate.finite(),
        limiter.rate.scaled() > 0,
        bytes > 0,
    ensures
        ({
            let (reservation, next) = limiter.reserved_at(bytes, now_nanos);
            &&& reservation == Reservation::Owed(
                TokenSum {
                    balance: limiter.balance,
                    rate: limiter.rate,
                    burst_bytes: limiter.burst_bytes,
                    refill_nanos: if now_nanos > limiter.last_nanos {
                        Some((now_nanos - limiter.last_nanos) as u128)
                    } else {
                        None
                    },
                    bytes,
                },
            )
            &&& next.balance == limiter.balance
            &&& next.rate == limiter.rate
            &&& next.burst_bytes == limiter.burst_bytes
            &&& next.throttled == limiter.throttled
            &&& next.last_nanos == if now_nanos > limiter.last_nanos {
                now_nanos
            } else {
                limiter.last_nanos
            }
            &&& limiter.reserved + bytes <= u64::MAX ==> next.reserved == limiter.reserved + bytes
        }),
{
}

/// A look at the statistics brings the balance up to the present time, whether the
/// bucket is in debt or not, and takes nothing out.
pub proof fn refreshes_cover_all_the_time(limiter: BandwidthModel, now_nanos: u128)
    requires
        limiter.rate.finite(),
    ensures
        ({
            let sum = TokenSum {
                balance: limiter.balance,
                rate: limiter.rate,
                burst_bytes: limiter.burst_bytes,
                refill_nanos: if now_nanos > limiter.last_nanos && limiter.rate.scaled() > 0 {
                    Some((now_nanos - limiter.last_nanos) as u128)
                } else {
                    None
                },
                bytes: 0,
            };
            &&& limiter.sum_at(now_nanos, 0) == sum
            &&& limiter.refreshing(now_nanos) == (BandwidthModel {
                last_nanos: if now_nanos > limiter.last_nanos {
                    now_nanos
                } else {
                    limiter.last_nanos
                },
                pending: Some(sum),
                ..limiter
            })
        }),
{
}

/// What is settled is what the balance becomes, and a wait is counted exactly if
/// it is a debt.
pub proof fn settling_sets_the_balance(limiter: BandwidthModel, tokens: Binary64)
    requires
        tokens.finite(),
    ensures
        ({
            let next = limiter.settled(tokens);
            &&& next.balance == Balance::Tokens(tokens)
            &&& next.rate == limiter.rate
            &&& next.burst_bytes == limiter.burst_bytes
            &&& next.last_nanos == limiter.last_nanos
            &&& next.reserved == limiter.reserved
            &&& next.throttled - limiter.throttled == if tokens.scaled() < 0 {
                1int
            } else {
                0int
            }
        }),
        limiter.refreshed(tokens).balance == Balance::Tokens(tokens),
        limiter.refreshed(tokens).throttled == limiter.throttled,
        limiter.refreshed(tokens).reserved == limiter.reserved,
        limiter.refreshed(tokens).last_nanos == limiter.last_nanos,
{
}

/// A limiter starts with a full bucket, the rate and burst of its profile, and
/// nothing counted.
pub proof fn limiters_start_full(profile: BandwidthProfile, now_nanos: u128)
    ensures
        BandwidthModel::fresh(profile, now_nanos) == (BandwidthModel {
            rate: profile.bytes_per_sec,
            burst_bytes: profile.burst_bytes,
            balance: Balance::Full,
            last_nanos: now_nanos,
            pending: None,
            reserved: 0,
            throttled: 0,
        }),
{
}

/// The statistics show the tokens that are there, and none where there is a debt.
pub proof fn statistics_show_the_balance(limiter: BandwidthModel)
    ensures
        limiter.balance is Full ==> limiter.available() is Full,
        limiter.balance matches Balance::Tokens(tokens) && tokens.finite() ==> limiter.available()
            == Balance::Tokens(
            if (limiter.balance->Tokens_0).scaled() > 0 {
                limiter.balance->Tokens_0
            } else {
                Binary64 { bits: 0 }
            },
        ),
{
}

} // verus!
