//! What the engine promises of an operation, in terms of the operation, the
//! configuration and the clock readings alone.

use vstd::prelude::*;

use crate::config::{Config, PolicyModel, Tier, TierModel};
use crate::engine::model::{
    bandwidth_wait, errno_of, event_of, fresh_engine, micros, policy_for, EngineModel, OpModel,
    OpSample, TokenOutcome,
};
use crate::engine::runs::{at_rest, lemma_run, replies, run, Call, Formula, Reply};
use crate::engine::OpContext;
use crate::error::FsError;
use crate::events::{Event, Outcome};
use crate::limiter::{BandwidthModel, LimiterModel};
use crate::op::{all_lists_every_op_once, FsOp, OP_COUNT};
use crate::sampler::fault::{first_fired, matching};
use crate::sampler::key::{
    every_field_matters, std_rng_word, std_rng_words, SampleKey, FAULT_STREAM, LATENCY_STREAM,
};
use crate::sampler::latency::body_of;

verus! {

/// The key of an operation: the seed of the engine, and the operation with its
/// inode, offset, length and sequence number.
pub open spec fn own_key(seed: u64, ctx: OpContext, seq: u64) -> SampleKey {
    SampleKey {
        seed,
        op: ctx.op,
        ino: ctx.ino,
        offset: ctx.offset,
        len: if ctx.len <= 0xffff_ffff {
            ctx.len as u32
        } else {
            0xffff_ffff
        },
        seq,
    }
}

/// The rules for an operation: those of the large tier for reads and writes that
/// ask for more than its threshold, and else those of the base policy.
pub open spec fn own_rules(policy: PolicyModel, ctx: OpContext) -> TierModel {
    if (ctx.op is Read || ctx.op is Write) && policy.large is Some && ctx.requested_len > (
    policy.large->0).0 {
        (policy.large->0).1
    } else {
        policy.base
    }
}

/// The first words of the generator with a seed.
pub open spec fn words_from(seed: u64, n: nat) -> Seq<u64> {
    Seq::new(n, |i: int| std_rng_word(seed, i as nat))
}

/// A duration as a histogram keeps it: from one microsecond to 60 seconds.
pub open spec fn kept(duration_us: u64) -> u64 {
    if duration_us == 0 {
        1
    } else if duration_us > 60_000_000 {
        60_000_000
    } else {
        duration_us
    }
}

// --- One operation ---

/// What is drawn for an operation is drawn from generators whose seeds are mixed
/// from its own seed, kind, inode, offset, length and sequence number, by the
/// rules of its own tier; and the same operation with another sequence number has
/// other generators for both its fault and its latency.
#[verifier::rlimit(40)]
pub proof fn every_operation_is_sampled_on_its_own(
    state: EngineModel,
    ctx: OpContext,
    seq: u64,
    now_nanos: u128,
    other_seq: u64,
)
    ensures
        ({
            let drawn = state.drawn_for(ctx, seq, now_nanos);
            let rules = own_rules(state.of(ctx.op).policy, ctx);
            let key = own_key(state.seed, ctx, seq);
            let other = own_key(state.seed, ctx, other_seq);
            &&& drawn.fault == first_fired(
                matching(rules.faults, ctx.op),
                words_from(key.mixed(FAULT_STREAM), rules.faults.len()),
                0,
            )
            &&& drawn.profile == rules.latency
            &&& drawn.body == body_of(
                rules.latency,
                words_from(key.mixed(LATENCY_STREAM), 3),
            )
            &&& seq != other_seq ==> key.mixed(FAULT_STREAM) != other.mixed(FAULT_STREAM)
                && key.mixed(LATENCY_STREAM) != other.mixed(LATENCY_STREAM)
        }),
{
    let key = own_key(state.seed, ctx, seq);
    let other = own_key(state.seed, ctx, other_seq);
    every_field_matters(key, other, FAULT_STREAM);
    every_field_matters(key, other, LATENCY_STREAM);
    let rules = own_rules(state.of(ctx.op).policy, ctx);
    assert(words_from(key.mixed(FAULT_STREAM), rules.faults.len())
        =~= std_rng_words(key.mixed(FAULT_STREAM), rules.faults.len()));
    assert(words_from(key.mixed(LATENCY_STREAM), 3) =~= std_rng_words(
        key.mixed(LATENCY_STREAM),
        3,
    ));
}

/// A read or write is charged for its own length, against the bandwidth of its
/// own tier, at the present time; nothing else is charged, and nothing else in
/// the state changes.
pub proof fn bandwidth_is_charged_to_the_own_tier(
    state: EngineModel,
    ctx: OpContext,
    seq: u64,
    now_nanos: u128,
)
    requires
        state.ops.len() == OP_COUNT,
    ensures
        ({
            let before = state.of(ctx.op);
            let drawn = state.drawn_for(ctx, seq, now_nanos);
            let after = state.sampling(ctx, now_nanos).of(ctx.op);
            let large = (ctx.op is Read || ctx.op is Write) && before.policy.large is Some
                && ctx.requested_len > (before.policy.large->0).0;
            let bucket = if large {
                before.large_bucket
            } else {
                before.base_bucket
            };
            let next = if large {
                after.large_bucket
            } else {
                after.base_bucket
            };
            let spared = if large {
                after.base_bucket == before.base_bucket
            } else {
                after.large_bucket == before.large_bucket
            };
            &&& drawn.tier == if large {
                Tier::Large
            } else {
                Tier::Base
            }
            &&& spared
            &&& after.policy == before.policy
            &&& after.limiter == before.limiter
            &&& after.tally == before.tally
            &&& if (ctx.op is Read || ctx.op is Write) && bucket is Some {
                &&& drawn.reservation == bucket->0.reserved_at(ctx.len as u64, now_nanos).0
                &&& next == Some(bucket->0.reserved_at(ctx.len as u64, now_nanos).1)
            } else {
                &&& drawn.reservation is Free
                &&& next == bucket
            }
        }),
        state.sampling(ctx, now_nanos).seed == state.seed,
        state.sampling(ctx, now_nanos).seq == state.seq,
{
    all_lists_every_op_once(ctx.op, 0);
}

/// What an operation owes is settled in the bandwidth limiter of its own tier, at
/// the tokens that were handed in; and it waits for its debt exactly if it has
/// one.
pub proof fn debts_are_settled_and_waited_for(
    state: EngineModel,
    op: FsOp,
    sample: OpSample,
    outcome: TokenOutcome,
)
    requires
        state.ops.len() == OP_COUNT,
        outcome.tokens.finite(),
        sample.reservation is Owed ==> state.of(op).bucket(sample.tier) is Some,
    ensures
        ({
            let before = state.of(op);
            let after = state.planning(op, sample, Some(outcome)).of(op);
            let settled = |bucket: Option<BandwidthModel>|
                Some(bucket->0.settled(outcome.tokens));
            &&& after.base_bucket == if sample.reservation is Owed && sample.tier is Base {
                settled(before.base_bucket)
            } else {
                before.base_bucket
            }
            &&& after.large_bucket == if sample.reservation is Owed && sample.tier is Large {
                settled(before.large_bucket)
            } else {
                before.large_bucket
            }
            &&& after.policy == before.policy
            &&& after.limiter == before.limiter
            &&& after.tally == before.tally
        }),
        bandwidth_wait(sample, Some(outcome)) == if sample.reservation is Owed
            && outcome.tokens.scaled() < 0 {
            outcome.debt_nanos
        } else {
            0
        },
        sample.reservation is Free ==> bandwidth_wait(sample, None) == 0,
        forall|unknown: TokenOutcome|
            sample.reservation is Owed && unknown.tokens.not_a_number()
                ==> #[trigger] bandwidth_wait(sample, Some(unknown)) == unknown.debt_nanos,
{
    all_lists_every_op_once(op, 0);
}

/// Every step gives out sequence numbers one by one, and changes slots, queue
/// and samples of the operation's own kind by what the operation did: the sample
/// of one that ends is its own duration.
pub proof fn steps_change_what_the_operation_did(
    state: EngineModel,
    op: FsOp,
    other: FsOp,
    waited_ns: nat,
    duration_us: u64,
    failed: bool,
)
    requires
        state.ops.len() == OP_COUNT,
        other != op,
    ensures
        ({
            let before = state.of(op);
            let limiter = before.limiter;
            let tally = before.tally;
            let admitted = state.admitting(op);
            let queued = state.queueing(op);
            let refused = state.refusing(op, duration_us);
            let let_in = state.letting_in(op, waited_ns);
            let finished = state.finishing(op, duration_us, failed);
            let released = state.releasing(op);
            &&& admitted.of(op) == (OpModel {
                limiter: LimiterModel {
                    inflight: limiter.inflight + 1,
                    acquired: limiter.acquired + 1,
                    ..limiter
                },
                ..before
            })
            &&& queued.of(op) == (OpModel {
                limiter: LimiterModel { queued: limiter.queued + 1, ..limiter },
                ..before
            })
            &&& refused.of(op).limiter == (LimiterModel {
                rejected: limiter.rejected + 1,
                ..limiter
            })
            &&& refused.of(op).tally.durations == tally.durations.insert(kept(duration_us))
            &&& refused.of(op).tally.errors == tally.errors + 1
            &&& refused.of(op).tally.successes == tally.successes
            &&& limiter.queued > 0 ==> let_in.of(op) == (OpModel {
                limiter: LimiterModel {
                    inflight: limiter.inflight + 1,
                    queued: (limiter.queued - 1) as nat,
                    acquired: limiter.acquired + 1,
                    waited_ns: limiter.waited_ns + waited_ns,
                    ..limiter
                },
                ..before
            })
            &&& limiter.inflight > 0 ==> finished.of(op).limiter == (LimiterModel {
                inflight: (limiter.inflight - 1) as nat,
                ..limiter
            })
            &&& finished.of(op).tally.durations == tally.durations.insert(kept(duration_us))
            &&& finished.of(op).tally.errors == tally.errors + if failed {
                1nat
            } else {
                0nat
            }
            &&& finished.of(op).tally.successes == tally.successes + if failed {
                0nat
            } else {
                1nat
            }
            &&& limiter.inflight > 0 ==> released.of(op) == (OpModel {
                limiter: LimiterModel { inflight: (limiter.inflight - 1) as nat, ..limiter },
                ..before
            })
            &&& forall|next: EngineModel|
                next == refused || next == finished ==> {
                    &&& (#[trigger] next.of(op)).policy == before.policy
                    &&& next.of(op).base_bucket == before.base_bucket
                    &&& next.of(op).large_bucket == before.large_bucket
                }
            &&& forall|next: EngineModel|
                next == admitted || next == queued || next == refused ==> {
                    &&& (#[trigger] next.seq) as int == (state.seq + 1) % 0x1_0000_0000_0000_0000
                    &&& next.seed == state.seed
                    &&& next.of(other) == state.of(other)
                }
            &&& forall|next: EngineModel|
                next == let_in || next == finished || next == released ==> {
                    &&& (#[trigger] next.seq) == state.seq
                    &&& next.seed == state.seed
                    &&& next.of(other) == state.of(other)
                }
        }),
{
    all_lists_every_op_once(op, other.position());
    all_lists_every_op_once(other, op.position());
}

/// An event says which operation it is of, what came of it, and how long it
/// waited and took, in microseconds.
pub proof fn events_report_the_operation<T>(
    ctx: OpContext,
    seq: u64,
    result: Result<T, FsError>,
    waited_nanos: u64,
    latency_us: u64,
    bandwidth_nanos: u64,
    total_us: u64,
    ts_unix_nanos: u128,
)
    ensures
        event_of(
            ctx,
            seq,
            errno_of(result),
            (micros(waited_nanos as u128), latency_us, micros(bandwidth_nanos as u128)),
            total_us,
            ts_unix_nanos,
        ) == (Event {
            ts_unix_nanos,
            seq,
            op: ctx.op,
            ino: ctx.ino,
            offset: ctx.offset,
            len: ctx.len,
            outcome: if result is Ok {
                Outcome::Success
            } else {
                Outcome::Error
            },
            errno: match result {
                Ok(_) => None,
                Err(FsError::Errno(errno)) => Some(errno),
                Err(FsError::Config(_)) => Some(22),
                Err(FsError::Io(Some(code))) => Some(code),
                Err(FsError::Io(None)) => Some(5),
            },
            queue_wait_us: (waited_nanos / 1000) as u64,
            injected_latency_us: latency_us,
            bandwidth_delay_us: (bandwidth_nanos / 1000) as u64,
            total_duration_us: total_us,
        }),
{
}

/// A new engine has, for every kind, the configured policy or else the standard
/// one, its slots and places all free, its buckets full, and nothing recorded.
pub proof fn engines_start_by_their_configuration(config: Config, built_nanos: u128, op: FsOp)
    ensures
        ({
            let policy = if config.ops@.contains_key(op) {
                config.ops@[op]
            } else {
                PolicyModel::standard()
            };
            let state = fresh_engine(config, built_nanos).of(op);
            &&& state.policy == policy
            &&& state.limiter.cap == policy.concurrency_cap
            &&& state.limiter.queue_cap == policy.queue_cap
            &&& state.limiter.inflight == 0
            &&& state.limiter.queued == 0
            &&& state.limiter.acquired == 0
            &&& state.limiter.rejected == 0
            &&& state.limiter.waited_ns == 0
            &&& state.tally.successes == 0
            &&& state.tally.errors == 0
            &&& state.tally.durations.len() == 0
            &&& state.base_bucket is Some <==> policy.base.bandwidth is Some
            &&& policy.base.bandwidth matches Some(profile) ==> state.base_bucket == Some(
                BandwidthModel::fresh(profile, built_nanos),
            )
            &&& state.large_bucket is Some <==> policy.large is Some && (
            policy.large->0).1.bandwidth is Some
            &&& state.large_bucket is Some ==> state.large_bucket == Some(
                BandwidthModel::fresh((policy.large->0).1.bandwidth->0, built_nanos),
            )
        }),
        fresh_engine(config, built_nanos).seed == config.seed,
        fresh_engine(config, built_nanos).seq == 0,
{
    all_lists_every_op_once(op, 0);
}

// --- Whole runs ---

/// What a call that comes after `i` others is answered, by the configuration, the
/// call and its place in the run alone.
pub open spec fn answered_by_the_configuration<T>(
    config: Config,
    call: Call<T>,
    i: int,
    reply: Reply<T>,
    formula: Formula,
) -> bool {
    let ctx = call.ctx;
    let policy = if config.ops@.contains_key(ctx.op) {
        config.ops@[ctx.op]
    } else {
        PolicyModel::standard()
    };
    let rules = own_rules(policy, ctx);
    let key = own_key(config.seed, ctx, i as u64);
    let fault = first_fired(
        matching(rules.faults, ctx.op),
        words_from(key.mixed(FAULT_STREAM), rules.faults.len()),
        0,
    );
    let body = body_of(rules.latency, words_from(key.mixed(LATENCY_STREAM), 3));
    let latency = formula(rules.latency, body);
    &&& reply.event.seq == i
    &&& reply.event.queue_wait_us == 0
    &&& reply.event.ts_unix_nanos == call.readings.ts_unix_nanos
    &&& if policy.concurrency_cap == 0 {
        &&& reply.result == Err::<T, FsError>(FsError::Errno(11))
        &&& reply.event.injected_latency_us == 0
        &&& reply.event.bandwidth_delay_us == 0
        &&& reply.event.total_duration_us == call.readings.elapsed_us
    } else {
        &&& reply.result == match fault {
            Some(errno) => Err(FsError::Errno(errno)),
            None => call.own,
        }
        &&& reply.event.injected_latency_us == if latency > rules.latency.max_us {
            rules.latency.max_us
        } else {
            latency
        }
        &&& reply.event.total_duration_us == call.readings.total_us
    }
}

/// In a run on a new engine, every call fails by the fault that its own sequence
/// number draws under the configured rules, or does its own work, after the
/// latency that it draws, up to the configured maximum; it is turned away exactly
/// if there are no slots at all.
#[verifier::rlimit(40)]
pub proof fn runs_are_drawn_from_the_configuration<T>(
    config: Config,
    built_nanos: u128,
    calls: Seq<Call<T>>,
    formula: Formula,
    i: int,
)
    requires
        calls.len() <= u64::MAX,
        0 <= i < calls.len(),
    ensures
        answered_by_the_configuration(
            config,
            calls[i],
            i,
            replies(fresh_engine(config, built_nanos), calls, formula)[i],
            formula,
        ),
    decreases calls.len(),
{
    let start = fresh_engine(config, built_nanos);
    let before = calls.drop_last();
    lemma_replies_len(start, before, formula);
    if i < before.len() {
        runs_are_drawn_from_the_configuration(config, built_nanos, before, formula, i);
    } else {
        let state = run(start, before);
        lemma_run(config, built_nanos, before);
        assert(at_rest(state.of(calls.last().ctx.op), policy_for(config, calls.last().ctx.op)));
        lemma_answer(config, state, calls.last(), i, formula);
    }
}

proof fn lemma_answer<T>(
    config: Config,
    state: EngineModel,
    call: Call<T>,
    i: int,
    formula: Formula,
)
    requires
        state.ops.len() == OP_COUNT,
        state.seed == config.seed,
        state.seq == i,
        at_rest(state.of(call.ctx.op), policy_for(config, call.ctx.op)),
    ensures
        answered_by_the_configuration(config, call, i, call.reply_in(state, formula), formula),
{
    let op = call.ctx.op;
    all_lists_every_op_once(op, 0);
    let admitted = state.admitting(op);
    assert(admitted.of(op).policy == policy_for(config, op));
    assert(admitted.seed == config.seed);
    every_operation_is_sampled_on_its_own(
        admitted,
        call.ctx,
        state.seq,
        call.readings.now_nanos,
        state.seq,
    );
}

proof fn lemma_replies_len<T>(start: EngineModel, calls: Seq<Call<T>>, formula: Formula)
    ensures
        replies(start, calls, formula).len() == calls.len(),
    decreases calls.len(),
{
    if calls.len() > 0 {
        lemma_replies_len(start, calls.drop_last(), formula);
    }
}

/// The durations that the events of a kind report, as a histogram keeps them.
pub open spec fn reported_durations<T>(given: Seq<Reply<T>>, op: FsOp) -> vstd::multiset::Multiset<
    u64,
>
    decreases given.len(),
{
    if given.len() == 0 {
        vstd::multiset::Multiset::empty()
    } else if given.last().event.op == op {
        reported_durations(given.drop_last(), op).insert(
            kept(given.last().event.total_duration_us),
        )
    } else {
        reported_durations(given.drop_last(), op)
    }
}

/// The number of events of a kind that report an error, or a success.
pub open spec fn reported_outcomes<T>(given: Seq<Reply<T>>, op: FsOp, outcome: Outcome) -> nat
    decreases given.len(),
{
    if given.len() == 0 {
        0
    } else {
        reported_outcomes(given.drop_last(), op, outcome) + if given.last().event.op == op
            && given.last().event.outcome == outcome {
            1nat
        } else {
            0nat
        }
    }
}

/// What is recorded of a kind over a run is what its events report: the
/// durations, the errors and the successes.
#[verifier::rlimit(40)]
pub proof fn metrics_record_what_events_report<T>(
    config: Config,
    built_nanos: u128,
    calls: Seq<Call<T>>,
    formula: Formula,
    op: FsOp,
)
    ensures
        ({
            let start = fresh_engine(config, built_nanos);
            let given = replies(start, calls, formula);
            let tally = run(start, calls).of(op).tally;
            &&& tally.durations == reported_durations(given, op)
            &&& tally.errors == reported_outcomes(given, op, Outcome::Error)
            &&& tally.successes == reported_outcomes(given, op, Outcome::Success)
        }),
    decreases calls.len(),
{
    let start = fresh_engine(config, built_nanos);
    all_lists_every_op_once(op, 0);
    if calls.len() > 0 {
        let before = calls.drop_last();
        let call = calls.last();
        metrics_record_what_events_report(config, built_nanos, before, formula, op);
        lemma_run(config, built_nanos, before);
        let state = run(start, before);
        let given = replies(start, calls, formula);
        assert(given.drop_last() =~= replies(start, before, formula));
        all_lists_every_op_once(call.ctx.op, op.position());
        all_lists_every_op_once(op, call.ctx.op.position());
    }
}

} // verus!
