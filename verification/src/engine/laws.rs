//! What holds of every operation and every engine.

use vstd::prelude::*;

use crate::config::{Config, PolicyModel, Tier};
use crate::config::validate::standard_policy_is_valid;
use crate::engine::model::{
    bandwidth_wait, body_for, charged, event_of, fault_for, fresh_engine, key_of, latency_of,
    policy_for, rules_for, tier_of,
};
use crate::engine::{EngineModel, OpContext, OpModel, OpSample, TokenOutcome};
use crate::events::Outcome;
use crate::op::{all_lists_every_op_once, FsOp};

verus! {

/// Where no operation of a kind is running or waiting, every one that was ever
/// started and not abandoned has left exactly one sample.
pub proof fn quiet_means_all_recorded(engine: EngineModel, op: FsOp)
    requires
        engine.wf(),
        engine.of(op).limiter.inflight == 0,
        engine.of(op).limiter.queued == 0,
    ensures
        engine.of(op).tally.total() + engine.of(op).abandoned() == engine.of(
            op,
        ).limiter.requests(),
        engine.of(op).tally.durations.len() == engine.of(op).tally.total(),
{
    all_lists_every_op_once(op, 0);
    assert(engine.ops[op.position()].wf());
}

/// Every operation that has been started runs, waits, has left its sample, or
/// was abandoned.
pub proof fn every_request_is_accounted_for(engine: EngineModel, op: FsOp)
    requires
        engine.wf(),
    ensures
        engine.of(op).limiter.requests() == engine.of(op).tally.total()
            + engine.of(op).limiter.inflight + engine.of(op).limiter.queued
            + engine.of(op).abandoned(),
        engine.of(op).abandoned() >= 0,
{
    all_lists_every_op_once(op, 0);
    assert(engine.ops[op.position()].wf());
}

/// An operation that is admitted at once and runs to its end leaves one more
/// sample and one more acquisition behind, and nothing else in the limiter.
pub proof fn an_operation_leaves_one_sample(state: OpModel, total_us: u64, failed: bool)
    ensures
        ({
            let running = OpModel { limiter: state.limiter.granted(), ..state };
            let done = OpModel {
                limiter: running.limiter.released(),
                tally: running.tally.with(total_us, failed),
                ..running
            };
            &&& done.tally.total() == state.tally.total() + 1
            &&& done.limiter.inflight == state.limiter.inflight
            &&& done.limiter.queued == state.limiter.queued
            &&& done.limiter.acquired == state.limiter.acquired + 1
            &&& done.limiter.rejected == state.limiter.rejected
        }),
{
}

/// Nothing is lost but what is abandoned: no operation is at the start, none is
/// by being admitted, queued, turned away or finished, and one is by giving its
/// slot back without a sample.
pub proof fn only_abandoning_loses_samples(
    state: OpModel,
    policy: PolicyModel,
    now_nanos: u128,
    waited_ns: nat,
    total_us: u64,
    failed: bool,
)
    ensures
        OpModel::fresh(policy, now_nanos).abandoned() == 0,
        (OpModel { limiter: state.limiter.granted(), ..state }).abandoned() == state.abandoned(),
        (OpModel { limiter: state.limiter.enqueued(), ..state }).abandoned() == state.abandoned(),
        (OpModel {
            limiter: state.limiter.refused(),
            tally: state.tally.with(total_us, true),
            ..state
        }).abandoned() == state.abandoned(),
        (OpModel { limiter: state.limiter.admitted(waited_ns), ..state }).abandoned()
            == state.abandoned(),
        state.limiter.inflight > 0 ==> (OpModel {
            limiter: state.limiter.released(),
            tally: state.tally.with(total_us, failed),
            ..state
        }).abandoned() == state.abandoned(),
        state.limiter.inflight > 0 ==> (OpModel {
            limiter: state.limiter.released(),
            ..state
        }).abandoned() == state.abandoned() + 1,
{
}

/// What an operation of one kind does leaves the other kinds as they are: each
/// has slots, queue, bandwidth and samples of its own.
pub proof fn kinds_do_not_interfere(engine: EngineModel, op: FsOp, state: OpModel, other: FsOp)
    requires
        engine.wf(),
        op != other,
    ensures
        engine.with(op, state).of(other) == engine.of(other),
        engine.with(op, state).of(op) == state,
{
    all_lists_every_op_once(op, other.position());
    all_lists_every_op_once(other, op.position());
}

/// Two engines that have kept to the rules of the same configuration give the
/// same fault and the same latency to the same operation with the same sequence
/// number, whenever they were built and whatever else happened in them.
pub proof fn replays_agree(
    config: Config,
    a: EngineModel,
    a_built: u128,
    b: EngineModel,
    b_built: u128,
    ctx: OpContext,
    seq: u64,
)
    requires
        a.same_rules(fresh_engine(config, a_built)),
        b.same_rules(fresh_engine(config, b_built)),
    ensures
        ({
            let in_a = rules_for(a.of(ctx.op).policy, ctx);
            let in_b = rules_for(b.of(ctx.op).policy, ctx);
            &&& tier_of(a.of(ctx.op).policy, ctx) == tier_of(b.of(ctx.op).policy, ctx)
            &&& in_a.latency == in_b.latency
            &&& fault_for(in_a, key_of(a.seed, ctx, seq)) == fault_for(
                in_b,
                key_of(b.seed, ctx, seq),
            )
            &&& body_for(in_a, key_of(a.seed, ctx, seq)) == body_for(
                in_b,
                key_of(b.seed, ctx, seq),
            )
        }),
{
    all_lists_every_op_once(ctx.op, 0);
    assert(a.of(ctx.op).policy == policy_for(config, ctx.op));
    assert(b.of(ctx.op).policy == policy_for(config, ctx.op));
}

/// Keeping to the rules is handed on from step to step.
pub proof fn rules_are_kept_along_a_run(first: EngineModel, next: EngineModel, last: EngineModel)
    requires
        next.same_rules(first),
        last.same_rules(next),
    ensures
        first.same_rules(first),
        last.same_rules(first),
{
    assert forall|op: FsOp| (#[trigger] last.of(op)).policy == first.of(op).policy by {
        assert(next.of(op).policy == first.of(op).policy);
    }
}

/// The large tier is for reads and writes above the threshold only: other
/// operations, and requests of at most the threshold, use the base policy.
pub proof fn small_and_metadata_requests_use_the_base_tier(policy: PolicyModel, ctx: OpContext)
    ensures
        !ctx.op.moves_data() ==> tier_of(policy, ctx) == Tier::Base,
        policy.large is None ==> tier_of(policy, ctx) == Tier::Base,
        policy.large is Some ==> (tier_of(policy, ctx) == Tier::Large <==> ctx.op.moves_data()
            && ctx.requested_len > (policy.large->0).0),
        tier_of(policy, ctx) == Tier::Base ==> rules_for(policy, ctx) == policy.base,
        tier_of(policy, ctx) == Tier::Large ==> rules_for(policy, ctx) == (policy.large->0).1,
{
}

/// The tier follows the requested length, not the bytes that are moved, which
/// in turn are all that the sampling key sees.
pub proof fn tier_follows_the_request(
    policy: PolicyModel,
    ctx: OpContext,
    len: usize,
    seed: u64,
    seq: u64,
)
    ensures
        tier_of(policy, OpContext { len, ..ctx }) == tier_of(policy, ctx),
        key_of(seed, OpContext { requested_len: len, ..ctx }, seq) == key_of(seed, ctx, seq),
{
}

/// Bandwidth is charged for reads and writes only.
pub proof fn metadata_is_never_charged(state: OpModel, ctx: OpContext, tier: Tier)
    requires
        !ctx.op.moves_data(),
    ensures
        !charged(state, ctx, tier),
{
}

/// An injected fault takes nothing off the time that an operation sleeps.
pub proof fn faulted_operations_still_wait(
    sample: OpSample,
    fault: Option<i32>,
    rounded_us: u64,
    outcome: Option<TokenOutcome>,
)
    ensures
        ({
            let other = OpSample { fault, ..sample };
            &&& latency_of(other, rounded_us) == latency_of(sample, rounded_us)
            &&& bandwidth_wait(other, outcome) == bandwidth_wait(sample, outcome)
        }),
{
}

/// No latency exceeds the clamp of its profile.
pub proof fn latency_is_clamped(sample: OpSample, rounded_us: u64)
    ensures
        latency_of(sample, rounded_us) <= sample.profile.max_us,
        rounded_us <= sample.profile.max_us ==> latency_of(sample, rounded_us) == rounded_us,
{
}

/// An event carries an errno exactly if its outcome is an error.
pub proof fn errno_goes_with_errors(
    ctx: OpContext,
    seq: u64,
    errno: Option<i32>,
    waits_us: (u64, u64, u64),
    total_us: u64,
    ts_unix_nanos: u128,
)
    ensures
        ({
            let event = event_of(ctx, seq, errno, waits_us, total_us, ts_unix_nanos);
            event.errno is Some <==> event.outcome == Outcome::Error
        }),
{
}

/// Under a valid configuration every operation kind starts with a free slot and
/// a valid policy.
pub proof fn valid_engines_admit(config: Config, now_nanos: u128, op: FsOp)
    requires
        config.valid(),
    ensures
        fresh_engine(config, now_nanos).of(op).limiter.has_slot(),
        fresh_engine(config, now_nanos).of(op).policy.valid(op),
{
    all_lists_every_op_once(op, 0);
    standard_policy_is_valid(op);
    assert(fresh_engine(config, now_nanos).of(op).policy == policy_for(config, op));
}

} // verus!
