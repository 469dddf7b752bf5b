//! The state of the engine, and what it does to an operation.

use vstd::prelude::*;

use crate::binary64::Binary64;
use crate::config::{Config, LatencyProfile, PolicyModel, Tier, TierModel};
use crate::engine::OpContext;
use crate::error::FsError;
use crate::events::{Event, Outcome};
use crate::limiter::bandwidth::in_debt;
use crate::limiter::{BandwidthModel, LimiterModel, Reservation};
use crate::metrics::Tally;
use crate::op::{FsOp, OP_COUNT};
use crate::sampler::fault::{first_fired, matching};
use crate::sampler::key::{std_rng_words, FAULT_STREAM, LATENCY_STREAM};
use crate::sampler::latency::body_of;
use crate::sampler::{LatencyDraw, SampleKey};

verus! {

/// The longest time that a thread can be put to sleep for, in nanoseconds.
pub const MAX_SLEEP_NANOS: u128 = 18_446_744_073_709_551_615_999_999_999;

/// What was drawn for an operation.
#[derive(Copy, Clone, Debug, PartialEq, Eq, Structural)]
pub struct OpSample {
    /// The errno to inject, if any.
    pub fault: Option<i32>,
    /// The latency profile in force.
    pub profile: LatencyProfile,
    /// The body of the latency.
    pub body: LatencyDraw,
    /// The tier in force.
    pub tier: Tier,
    /// What the bandwidth limiter of that tier said.
    pub reservation: Reservation,
}

/// What an operation has to wait for.
#[derive(Copy, Clone, Debug, PartialEq, Eq, Structural)]
pub struct OpPlan {
    /// The injected latency in microseconds.
    pub latency_us: u64,
    /// The delay on account of bandwidth in nanoseconds.
    pub bandwidth_nanos: u128,
    /// How long to sleep in all, in nanoseconds; this can exceed
    /// [`MAX_SLEEP_NANOS`].
    pub sleep_nanos: u128,
}

/// The outcome of a sum of tokens that was owed.
#[derive(Copy, Clone, Debug, PartialEq, Eq, Structural)]
pub struct TokenOutcome {
    /// The tokens.
    pub tokens: Binary64,
    /// How long it takes to pay them off if they are a debt, in nanoseconds.
    pub debt_nanos: u128,
}

/// The state that the engine keeps for one operation kind.
#[verifier::ext_equal]
pub struct OpModel {
    /// What is configured.
    pub policy: PolicyModel,
    /// The concurrency limiter.
    pub limiter: LimiterModel,
    /// The bandwidth limiter of the base policy.
    pub base_bucket: Option<BandwidthModel>,
    /// The bandwidth limiter of the large tier.
    pub large_bucket: Option<BandwidthModel>,
    /// What was recorded.
    pub tally: Tally,
}

/// The state of the engine.
#[verifier::ext_equal]
pub struct EngineModel {
    /// The master seed.
    pub seed: u64,
    /// The sequence number of the next operation.
    pub seq: u64,
    /// The state for each operation kind, in the order of [`FsOp::ALL`].
    pub ops: Seq<OpModel>,
}

impl OpModel {
    /// The state for a policy that nobody has used yet.
    pub open spec fn fresh(policy: PolicyModel, now_nanos: u128) -> OpModel {
        OpModel {
            policy,
            limiter: LimiterModel::fresh(
                policy.concurrency_cap as nat,
                policy.queue_cap as nat,
            ),
            base_bucket: match policy.base.bandwidth {
                Some(profile) => Some(BandwidthModel::fresh(profile, now_nanos)),
                None => None,
            },
            large_bucket: match policy.large {
                Some((_, tier)) => match tier.bandwidth {
                    Some(profile) => Some(BandwidthModel::fresh(profile, now_nanos)),
                    None => None,
                },
                None => None,
            },
            tally: Tally::none(),
        }
    }

    /// The bandwidth limiter of a tier.
    pub open spec fn bucket(self, tier: Tier) -> Option<BandwidthModel> {
        match tier {
            Tier::Base => self.base_bucket,
            Tier::Large => self.large_bucket,
        }
    }

    /// With the bandwidth limiter of a tier replaced.
    pub open spec fn with_bucket(self, tier: Tier, bucket: BandwidthModel) -> OpModel {
        match tier {
            Tier::Base => OpModel { base_bucket: Some(bucket), ..self },
            Tier::Large => OpModel { large_bucket: Some(bucket), ..self },
        }
    }

    /// Whether the bandwidth limiter of a tier, if there is one, has no sum
    /// pending.
    pub open spec fn settled(self, tier: Tier) -> bool {
        self.bucket(tier) matches Some(bucket) ==> bucket.pending is None
    }

    /// How many operations were abandoned: they have neither a slot nor a place
    /// in the queue nor a sample.
    pub open spec fn abandoned(self) -> int {
        self.limiter.acquired + self.limiter.rejected - self.tally.total() - self.limiter.inflight
    }

    /// Every request that has left the queue either holds a slot, or has been
    /// recorded, once, or was abandoned; and limiter and policy agree.
    pub open spec fn wf(self) -> bool {
        &&& self.limiter.bounded()
        &&& self.limiter.cap == self.policy.concurrency_cap
        &&& self.limiter.queue_cap == self.policy.queue_cap
        &&& self.limiter.requests() <= u64::MAX
        &&& self.limiter.acquired <= u64::MAX
        &&& self.tally.consistent()
        &&& self.abandoned() >= 0
    }
}

/// The number of requests that the first `n` operation kinds have seen.
pub open spec fn requests_upto(ops: Seq<OpModel>, n: int) -> nat
    decreases n,
{
    if n <= 0 {
        0
    } else {
        requests_upto(ops, n - 1) + ops[n - 1].limiter.requests()
    }
}

/// The number of samples that the first `n` operation kinds have left.
pub open spec fn samples_upto(ops: Seq<OpModel>, n: int) -> nat
    decreases n,
{
    if n <= 0 {
        0
    } else {
        samples_upto(ops, n - 1) + ops[n - 1].tally.total()
    }
}

impl EngineModel {
    /// The state for an operation kind.
    pub open spec fn of(self, op: FsOp) -> OpModel {
        self.ops[op.position()]
    }

    /// With the state for an operation kind replaced.
    pub open spec fn with(self, op: FsOp, state: OpModel) -> EngineModel {
        EngineModel { ops: self.ops.update(op.position(), state), ..self }
    }

    /// With one sequence number given out.
    pub open spec fn numbered(self) -> EngineModel {
        EngineModel { seq: self.seq.wrapping_add(1), ..self }
    }

    /// Whether both have the same seed and the same policies.
    pub open spec fn same_rules(self, other: EngineModel) -> bool {
        &&& self.seed == other.seed
        &&& forall|op: FsOp| (#[trigger] self.of(op)).policy == other.of(op).policy
    }

    /// How many operations have been started.
    pub open spec fn requests(self) -> nat {
        requests_upto(self.ops, OP_COUNT as int)
    }

    /// How many samples have been left.
    pub open spec fn samples(self) -> nat {
        samples_upto(self.ops, OP_COUNT as int)
    }

    /// The state for each operation kind is sound, and as many sequence numbers
    /// were given out as operations were started.
    pub open spec fn wf(self) -> bool {
        &&& self.ops.len() == OP_COUNT
        &&& forall|i: int| 0 <= i < OP_COUNT ==> (#[trigger] self.ops[i]).wf()
        &&& self.seq == self.requests() % 0x1_0000_0000_0000_0000
    }
}

/// The key with which an operation is sampled.
pub open spec fn key_of(seed: u64, ctx: OpContext, seq: u64) -> SampleKey {
    SampleKey {
        seed,
        op: ctx.op,
        ino: ctx.ino,
        offset: ctx.offset,
        len: if ctx.len > u32::MAX {
            u32::MAX
        } else {
            ctx.len as u32
        },
        seq,
    }
}

/// The tier in force for an operation: the large one for reads and writes that
/// ask for more bytes than the threshold, if it is configured.
pub open spec fn tier_of(policy: PolicyModel, ctx: OpContext) -> Tier {
    match policy.large {
        Some((threshold_bytes, _)) if ctx.op.moves_data() && ctx.requested_len
            > threshold_bytes => Tier::Large,
        _ => Tier::Base,
    }
}

/// What a policy prescribes in a tier.
pub open spec fn rules_of(policy: PolicyModel, tier: Tier) -> TierModel {
    match (tier, policy.large) {
        (Tier::Large, Some((_, large))) => large,
        _ => policy.base,
    }
}

/// What a policy prescribes for an operation.
pub open spec fn rules_for(policy: PolicyModel, ctx: OpContext) -> TierModel {
    rules_of(policy, tier_of(policy, ctx))
}

/// The fault that is injected into an operation with the given rules and key.
pub open spec fn fault_for(rules: TierModel, key: SampleKey) -> Option<i32> {
    first_fired(
        matching(rules.faults, key.op),
        std_rng_words(key.mixed(FAULT_STREAM), rules.faults.len()),
        0,
    )
}

/// The latency body of an operation with the given rules and key.
pub open spec fn body_for(rules: TierModel, key: SampleKey) -> LatencyDraw {
    body_of(rules.latency, std_rng_words(key.mixed(LATENCY_STREAM), 3))
}

/// Whether an operation is charged against a bandwidth limiter of the tier.
pub open spec fn charged(state: OpModel, ctx: OpContext, tier: Tier) -> bool {
    ctx.op.moves_data() && state.bucket(tier) is Some
}

/// The event of an operation.
pub open spec fn event_of(
    ctx: OpContext,
    seq: u64,
    errno: Option<i32>,
    waits_us: (u64, u64, u64),
    total_us: u64,
    ts_unix_nanos: u128,
) -> Event {
    Event {
        ts_unix_nanos,
        seq,
        op: ctx.op,
        ino: ctx.ino,
        offset: ctx.offset,
        len: ctx.len,
        outcome: if errno is Some {
            Outcome::Error
        } else {
            Outcome::Success
        },
        errno,
        queue_wait_us: waits_us.0,
        injected_latency_us: waits_us.1,
        bandwidth_delay_us: waits_us.2,
        total_duration_us: total_us,
    }
}

/// Whole microseconds, cut to 64 bits.
pub open spec fn micros(nanos: u128) -> u64 {
    (nanos / 1000) as u64
}

/// The policy in force for an operation kind: the configured one, or else the
/// standard one.
pub open spec fn policy_for(config: Config, op: FsOp) -> PolicyModel {
    if config.ops@.contains_key(op) {
        config.ops@[op]
    } else {
        PolicyModel::standard()
    }
}

/// The state of an engine that nobody has used yet.
pub open spec fn fresh_engine(config: Config, now_nanos: u128) -> EngineModel {
    EngineModel {
        seed: config.seed,
        seq: 0,
        ops: Seq::new(
            OP_COUNT as nat,
            |i: int| OpModel::fresh(policy_for(config, FsOp::at(i)), now_nanos),
        ),
    }
}

impl EngineModel {
    /// After an operation was given a sequence number and a slot.
    pub open spec fn admitting(self, op: FsOp) -> EngineModel {
        let state = self.of(op);
        self.numbered().with(op, OpModel { limiter: state.limiter.granted(), ..state })
    }

    /// After an operation was given a sequence number and a place in the queue.
    pub open spec fn queueing(self, op: FsOp) -> EngineModel {
        let state = self.of(op);
        self.numbered().with(op, OpModel { limiter: state.limiter.enqueued(), ..state })
    }

    /// After an operation was given a sequence number and turned away.
    pub open spec fn refusing(self, op: FsOp, elapsed_us: u64) -> EngineModel {
        let state = self.of(op);
        self.numbered().with(
            op,
            OpModel {
                limiter: state.limiter.refused(),
                tally: state.tally.with(elapsed_us, true),
                ..state
            },
        )
    }

    /// After an operation has left the queue with a slot.
    pub open spec fn letting_in(self, op: FsOp, waited_ns: nat) -> EngineModel {
        let state = self.of(op);
        self.with(op, OpModel { limiter: state.limiter.admitted(waited_ns), ..state })
    }

    /// What is drawn for an operation with the given sequence number at the time
    /// `now_nanos`.
    pub open spec fn drawn_for(self, ctx: OpContext, seq: u64, now_nanos: u128) -> OpSample {
        let state = self.of(ctx.op);
        let tier = tier_of(state.policy, ctx);
        let rules = rules_of(state.policy, tier);
        let key = key_of(self.seed, ctx, seq);
        OpSample {
            fault: fault_for(rules, key),
            profile: rules.latency,
            body: body_for(rules, key),
            tier,
            reservation: if charged(state, ctx, tier) {
                state.bucket(tier)->0.reserved_at(ctx.len as u64, now_nanos).0
            } else {
                Reservation::Free
            },
        }
    }

    /// After the bandwidth of an operation was reserved at the time `now_nanos`.
    pub open spec fn sampling(self, ctx: OpContext, now_nanos: u128) -> EngineModel {
        let state = self.of(ctx.op);
        let tier = tier_of(state.policy, ctx);
        if charged(state, ctx, tier) {
            self.with(
                ctx.op,
                state.with_bucket(
                    tier,
                    state.bucket(tier)->0.reserved_at(ctx.len as u64, now_nanos).1,
                ),
            )
        } else {
            self
        }
    }

    /// After the sum of tokens that an operation owes, if it owes one, was
    /// settled.
    pub open spec fn planning(
        self,
        op: FsOp,
        sample: OpSample,
        outcome: Option<TokenOutcome>,
    ) -> EngineModel {
        let state = self.of(op);
        match sample.reservation {
            Reservation::Free => self,
            Reservation::Owed(_) => self.with(
                op,
                state.with_bucket(
                    sample.tier,
                    state.bucket(sample.tier)->0.settled(outcome->0.tokens),
                ),
            ),
        }
    }

    /// After an operation was recorded and gave its slot back.
    pub open spec fn finishing(self, op: FsOp, total_us: u64, failed: bool) -> EngineModel {
        let state = self.of(op);
        self.with(
            op,
            OpModel {
                limiter: state.limiter.released(),
                tally: state.tally.with(total_us, failed),
                ..state
            },
        )
    }

    /// After an abandoned operation gave its slot back.
    pub open spec fn releasing(self, op: FsOp) -> EngineModel {
        let state = self.of(op);
        self.with(op, OpModel { limiter: state.limiter.released(), ..state })
    }
}

/// The delay on account of bandwidth.
pub open spec fn bandwidth_wait(sample: OpSample, outcome: Option<TokenOutcome>) -> u128 {
    match (sample.reservation, outcome) {
        (Reservation::Owed(_), Some(settled)) if in_debt(settled.tokens) => settled.debt_nanos,
        _ => 0,
    }
}

/// The latency to inject: at most the clamp of the profile.
pub open spec fn latency_of(sample: OpSample, rounded_us: u64) -> u64 {
    if rounded_us > sample.profile.max_us {
        sample.profile.max_us
    } else {
        rounded_us
    }
}

/// The errno of a result, if it is an error.
pub open spec fn errno_of<T>(result: Result<T, FsError>) -> Option<i32> {
    match result {
        Ok(_) => None,
        Err(error) => Some(error.errno()),
    }
}

/// A change for one operation kind changes the number of requests by as much
/// as the number of its own.
pub proof fn lemma_requests_update(ops: Seq<OpModel>, i: int, state: OpModel, n: int)
    requires
        0 <= i < ops.len(),
        0 <= n <= ops.len(),
    ensures
        requests_upto(ops.update(i, state), n) == requests_upto(ops, n) + if i < n {
            state.limiter.requests() - ops[i].limiter.requests()
        } else {
            0
        },
    decreases n,
{
    if n > 0 {
        lemma_requests_update(ops, i, state, n - 1);
    }
}

/// A fresh engine has seen no requests.
pub proof fn lemma_no_requests_yet(config: Config, now_nanos: u128, n: int)
    requires
        0 <= n <= OP_COUNT,
    ensures
        requests_upto(fresh_engine(config, now_nanos).ops, n) == 0,
    decreases n,
{
    if n > 0 {
        lemma_no_requests_yet(config, now_nanos, n - 1);
    }
}

} // verus!
