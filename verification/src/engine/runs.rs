//! What holds of whole runs of operations, one after another.
//!
//! A run is a sequence of calls on an engine from its start. Each call goes
//! through all steps of the lifecycle before the next one begins. Clock readings
//! and token sums are whatever the caller hands in; the latency formula may be
//! any function of the profile and the body that was drawn.

use vstd::prelude::*;

use crate::config::{Config, LatencyProfile, PolicyModel};
use crate::engine::model::{
    bandwidth_wait, errno_of, event_of, fresh_engine, latency_of, lemma_no_requests_yet,
    lemma_requests_update, micros, policy_for, requests_upto, samples_upto, EngineModel, OpModel,
    TokenOutcome,
};
use crate::engine::OpContext;
use crate::errno::EAGAIN;
use crate::error::FsError;
use crate::events::{Event, Outcome};
use crate::metrics::{counted, counts_add_up, summaries, totals_from, Tally};
use crate::op::{all_lists_every_op_once, FsOp, OP_COUNT};
use crate::sampler::LatencyDraw;

verus! {

/// What a caller hands in on account of clocks and floating point.
pub struct Readings {
    /// The time since the arrival, if the operation is turned away.
    pub elapsed_us: u64,
    /// The time at which bandwidth is reserved.
    pub now_nanos: u128,
    /// The outcome of the sum of tokens, if one is owed.
    pub tokens: TokenOutcome,
    /// The time since the arrival at the end.
    pub total_us: u64,
    /// The wall-clock time at the end.
    pub ts_unix_nanos: u128,
}

/// One operation from start to end.
pub struct Call<T> {
    /// The operation.
    pub ctx: OpContext,
    /// What its own work returns, if it is done.
    pub own: Result<T, FsError>,
    /// What the caller hands in.
    pub readings: Readings,
}

/// What comes of a call.
pub struct Reply<T> {
    /// The event that is emitted.
    pub event: Event,
    /// The result that is returned.
    pub result: Result<T, FsError>,
}

/// How the caller works out a latency from a profile and a body, in whole
/// microseconds.
pub type Formula = spec_fn(LatencyProfile, LatencyDraw) -> u64;

impl<T> Call<T> {
    /// Whether this is the same request as another, whatever the clocks said.
    pub open spec fn same_request(self, other: Call<T>) -> bool {
        self.ctx == other.ctx && self.own == other.own
    }

    /// The result in the given state.
    pub open spec fn result_in(self, state: EngineModel) -> Result<T, FsError> {
        if state.of(self.ctx.op).limiter.has_slot() {
            match state.admitting(self.ctx.op).drawn_for(
                self.ctx,
                state.seq,
                self.readings.now_nanos,
            ).fault {
                Some(errno) => Err(FsError::Errno(errno)),
                None => self.own,
            }
        } else {
            Err(FsError::Errno(EAGAIN))
        }
    }

    /// What comes of this call in the given state, where nobody has to queue.
    pub open spec fn reply_in(self, state: EngineModel, formula: Formula) -> Reply<T> {
        let result = self.result_in(state);
        let event = if state.of(self.ctx.op).limiter.has_slot() {
            let sample = state.admitting(self.ctx.op).drawn_for(
                self.ctx,
                state.seq,
                self.readings.now_nanos,
            );
            event_of(
                self.ctx,
                state.seq,
                errno_of(result),
                (
                    0,
                    latency_of(sample, formula(sample.profile, sample.body)),
                    micros(bandwidth_wait(sample, Some(self.readings.tokens))),
                ),
                self.readings.total_us,
                self.readings.ts_unix_nanos,
            )
        } else {
            event_of(
                self.ctx,
                state.seq,
                Some(EAGAIN),
                (0, 0, 0),
                self.readings.elapsed_us,
                self.readings.ts_unix_nanos,
            )
        };
        Reply { event, result }
    }

    /// The state after this call, where nobody has to queue.
    pub open spec fn after(self, state: EngineModel) -> EngineModel {
        let op = self.ctx.op;
        if state.of(op).limiter.has_slot() {
            let admitted = state.admitting(op);
            let sample = admitted.drawn_for(self.ctx, state.seq, self.readings.now_nanos);
            admitted.sampling(self.ctx, self.readings.now_nanos).planning(
                op,
                sample,
                Some(self.readings.tokens),
            ).finishing(op, self.readings.total_us, self.result_in(state) is Err)
        } else {
            state.refusing(op, self.readings.elapsed_us)
        }
    }
}

/// The state after a run.
pub open spec fn run<T>(start: EngineModel, calls: Seq<Call<T>>) -> EngineModel
    decreases calls.len(),
{
    if calls.len() == 0 {
        start
    } else {
        calls.last().after(run(start, calls.drop_last()))
    }
}

/// What comes of the calls of a run.
pub open spec fn replies<T>(start: EngineModel, calls: Seq<Call<T>>, formula: Formula) -> Seq<
    Reply<T>,
>
    decreases calls.len(),
{
    if calls.len() == 0 {
        Seq::empty()
    } else {
        replies(start, calls.drop_last(), formula).push(
            calls.last().reply_in(run(start, calls.drop_last()), formula),
        )
    }
}

/// Nothing of this kind runs or waits, and nothing was abandoned.
pub open spec fn quiet(state: OpModel) -> bool {
    &&& state.limiter.inflight == 0
    &&& state.limiter.queued == 0
    &&& state.abandoned() == 0
}

/// A change for one operation kind changes the number of samples by as much as
/// the number of its own.
proof fn lemma_samples_update(ops: Seq<OpModel>, i: int, state: OpModel, n: int)
    requires
        0 <= i < ops.len(),
        0 <= n <= ops.len(),
    ensures
        samples_upto(ops.update(i, state), n) == samples_upto(ops, n) + if i < n {
            state.tally.total() - ops[i].tally.total()
        } else {
            0
        },
    decreases n,
{
    if n > 0 {
        lemma_samples_update(ops, i, state, n - 1);
    }
}

/// Where every kind is quiet, there are as many samples as requests.
proof fn lemma_quiet_sums(ops: Seq<OpModel>, n: int)
    requires
        0 <= n <= ops.len(),
        forall|i: int| 0 <= i < n ==> quiet(#[trigger] ops[i]),
    ensures
        samples_upto(ops, n) == requests_upto(ops, n),
    decreases n,
{
    if n > 0 {
        lemma_quiet_sums(ops, n - 1);
        assert(quiet(ops[n - 1]));
    }
}

/// A call changes nothing but the state for its own kind, of which it leaves the
/// policy and the limits as they are, adds one request and one sample, and gives
/// back what it took.
proof fn lemma_one_call<T>(state: EngineModel, call: Call<T>)
    requires
        state.ops.len() == OP_COUNT,
        quiet(state.of(call.ctx.op)),
    ensures
        ({
            let op = call.ctx.op;
            let end = call.after(state);
            &&& end.ops == state.ops.update(op.position(), end.of(op))
            &&& end.seed == state.seed
            &&& end.seq == state.seq.wrapping_add(1)
            &&& end.of(op).policy == state.of(op).policy
            &&& end.of(op).limiter.cap == state.of(op).limiter.cap
            &&& end.of(op).limiter.queue_cap == state.of(op).limiter.queue_cap
            &&& end.of(op).limiter.requests() == state.of(op).limiter.requests() + 1
            &&& end.of(op).tally.total() == state.of(op).tally.total() + 1
            &&& quiet(end.of(op))
        }),
{
    let op = call.ctx.op;
    all_lists_every_op_once(op, 0);
    let end = call.after(state);
    assert(end.ops =~= state.ops.update(op.position(), end.of(op)));
}

/// Whether a kind is quiet and under the policy of a configuration.
pub open spec fn at_rest(state: OpModel, policy: PolicyModel) -> bool {
    &&& quiet(state)
    &&& state.policy == policy
    &&& state.limiter.cap == policy.concurrency_cap
    &&& state.limiter.queue_cap == policy.queue_cap
}

/// Whether an engine is as after `n` calls, one after another, under a
/// configuration.
pub open spec fn rested(engine: EngineModel, config: Config, n: nat) -> bool {
    &&& engine.ops.len() == OP_COUNT
    &&& engine.seed == config.seed
    &&& engine.seq == n % 0x1_0000_0000_0000_0000
    &&& engine.requests() == n
    &&& engine.samples() == n
    &&& forall|op: FsOp| at_rest(#[trigger] engine.of(op), policy_for(config, op))
}

proof fn lemma_start(config: Config, built_nanos: u128)
    ensures
        rested(fresh_engine(config, built_nanos), config, 0),
{
    let start = fresh_engine(config, built_nanos);
    lemma_no_requests_yet(config, built_nanos, OP_COUNT as int);
    assert forall|op: FsOp| at_rest(#[trigger] start.of(op), policy_for(config, op)) by {
        all_lists_every_op_once(op, 0);
    }
    assert forall|i: int| 0 <= i < OP_COUNT implies quiet(#[trigger] start.ops[i]) by {}
    lemma_quiet_sums(start.ops, OP_COUNT as int);
}

proof fn lemma_next(config: Config, n: nat, before: EngineModel, end: EngineModel, op: FsOp)
    requires
        rested(before, config, n),
        end.ops == before.ops.update(op.position(), end.of(op)),
        end.seed == before.seed,
        end.seq == before.seq.wrapping_add(1),
        at_rest(end.of(op), policy_for(config, op)),
        end.of(op).limiter.requests() == before.of(op).limiter.requests() + 1,
        end.of(op).tally.total() == before.of(op).tally.total() + 1,
    ensures
        rested(end, config, n + 1),
{
    all_lists_every_op_once(op, 0);
    lemma_requests_update(before.ops, op.position(), end.of(op), OP_COUNT as int);
    lemma_samples_update(before.ops, op.position(), end.of(op), OP_COUNT as int);
    assert forall|other: FsOp| at_rest(#[trigger] end.of(other), policy_for(config, other)) by {
        all_lists_every_op_once(other, op.position());
        assert(at_rest(before.of(other), policy_for(config, other)));
    }
}

/// What every run from a fresh engine leads to.
pub proof fn lemma_run<T>(config: Config, built_nanos: u128, calls: Seq<Call<T>>)
    ensures
        rested(run(fresh_engine(config, built_nanos), calls), config, calls.len()),
    decreases calls.len(),
{
    let start = fresh_engine(config, built_nanos);
    if calls.len() == 0 {
        lemma_start(config, built_nanos);
    } else {
        let before = run(start, calls.drop_last());
        let op = calls.last().ctx.op;
        lemma_run(config, built_nanos, calls.drop_last());
        assert(at_rest(before.of(op), policy_for(config, op)));
        lemma_one_call(before, calls.last());
        lemma_next(
            config,
            calls.drop_last().len(),
            before,
            calls.last().after(before),
            op,
        );
    }
}

// --- Laws ---

/// Where nothing runs, waits or was abandoned, the samples over all kinds add up
/// to the operations that were started.
pub proof fn samples_add_up_to_requests(engine: EngineModel)
    requires
        engine.wf(),
        forall|op: FsOp| quiet(#[trigger] engine.of(op)),
    ensures
        engine.samples() == engine.requests(),
{
    assert forall|i: int| 0 <= i < OP_COUNT implies quiet(#[trigger] engine.ops[i]) by {
        let op = FsOp::at(i);
        all_lists_every_op_once(op, i);
        assert(quiet(engine.of(op)));
    }
    lemma_quiet_sums(engine.ops, OP_COUNT as int);
}

/// The counts in a summary add up to the samples.
pub proof fn summary_counts_add_up_to_samples(engine: EngineModel)
    requires
        engine.wf(),
    ensures
        counted(summaries(|op: FsOp| engine.of(op).tally, 0)) == engine.samples(),
{
    let tallies = |op: FsOp| engine.of(op).tally;
    assert forall|op: FsOp| (#[trigger] tallies(op)).total() <= u64::MAX by {
        all_lists_every_op_once(op, 0);
        assert(engine.ops[op.position()].wf());
    }
    counts_add_up(tallies, 0);
    lemma_totals(engine, tallies, 0);
}

proof fn lemma_totals(engine: EngineModel, tallies: spec_fn(FsOp) -> Tally, from: int)
    requires
        engine.ops.len() == OP_COUNT,
        tallies == (|op: FsOp| engine.of(op).tally),
        0 <= from <= OP_COUNT,
    ensures
        samples_upto(engine.ops, from) + totals_from(tallies, from) == engine.samples(),
    decreases OP_COUNT - from,
{
    if from < OP_COUNT {
        let op = FsOp::at(from);
        all_lists_every_op_once(op, from);
        assert(tallies(op) == engine.ops[from].tally);
        lemma_totals(engine, tallies, from + 1);
    }
}

/// In a run on a fresh engine every call has exactly one event, numbered in the
/// order of the calls from zero on, and leaves exactly one sample, whether it is
/// admitted, turned away or faulted, or its own work fails. Nobody ever queues,
/// and in the end nothing runs.
pub proof fn every_call_has_one_event_and_one_sample<T>(
    config: Config,
    built_nanos: u128,
    calls: Seq<Call<T>>,
    formula: Formula,
)
    requires
        calls.len() <= u64::MAX,
    ensures
        ({
            let start = fresh_engine(config, built_nanos);
            let end = run(start, calls);
            let given = replies(start, calls, formula);
            &&& given.len() == calls.len()
            &&& forall|i: int|
                0 <= i < calls.len() ==> {
                    &&& (#[trigger] given[i]).event.seq == i
                    &&& given[i].event.op == calls[i].ctx.op
                    &&& given[i].event.ino == calls[i].ctx.ino
                    &&& given[i].event.offset == calls[i].ctx.offset
                    &&& given[i].event.len == calls[i].ctx.len
                    &&& given[i].event.errno == errno_of(given[i].result)
                    &&& given[i].event.outcome == Outcome::Error <==> given[i].result is Err
                }
            &&& rested(end, config, calls.len())
            &&& forall|op: FsOp|
                {
                    let limiter = (#[trigger] end.of(op)).limiter;
                    limiter.has_slot() || !limiter.has_place()
                }
        }),
    decreases calls.len(),
{
    lemma_run(config, built_nanos, calls);
    let start = fresh_engine(config, built_nanos);
    if calls.len() > 0 {
        let before = calls.drop_last();
        every_call_has_one_event_and_one_sample(config, built_nanos, before, formula);
        lemma_run(config, built_nanos, before);
        let given = replies(start, calls, formula);
        let earlier = replies(start, before, formula);
        assert forall|i: int| 0 <= i < calls.len() implies {
            &&& (#[trigger] given[i]).event.seq == i
            &&& given[i].event.op == calls[i].ctx.op
            &&& given[i].event.ino == calls[i].ctx.ino
            &&& given[i].event.offset == calls[i].ctx.offset
            &&& given[i].event.len == calls[i].ctx.len
            &&& given[i].event.errno == errno_of(given[i].result)
            &&& given[i].event.outcome == Outcome::Error <==> given[i].result is Err
        } by {
            if i < before.len() {
                assert(given[i] == earlier[i]);
                assert(before[i] == calls[i]);
            }
        }
    }
}

/// Whether two replies agree in all but what clocks and bandwidth said.
pub open spec fn same_reply<T>(a: Reply<T>, b: Reply<T>) -> bool {
    &&& a.result == b.result
    &&& a.event.seq == b.event.seq
    &&& a.event.op == b.event.op
    &&& a.event.ino == b.event.ino
    &&& a.event.offset == b.event.offset
    &&& a.event.len == b.event.len
    &&& a.event.outcome == b.event.outcome
    &&& a.event.errno == b.event.errno
    &&& a.event.queue_wait_us == b.event.queue_wait_us
    &&& a.event.injected_latency_us == b.event.injected_latency_us
}

/// Whether two configurations give every operation kind the same policy, under
/// the same seed.
pub open spec fn same_policies(a: Config, b: Config) -> bool {
    &&& a.seed == b.seed
    &&& forall|op: FsOp| #[trigger] policy_for(a, op) == policy_for(b, op)
}

/// Two engines with the same seed and policies, given the same requests one
/// after another, answer call by call with the same result, the same sequence
/// number, the same outcome and errno and the same latency, whenever they were
/// built and whatever the clocks said.
pub proof fn runs_are_replayed<T>(
    a: Config,
    a_built: u128,
    a_calls: Seq<Call<T>>,
    b: Config,
    b_built: u128,
    b_calls: Seq<Call<T>>,
    formula: Formula,
)
    requires
        same_policies(a, b),
        a_calls.len() == b_calls.len(),
        forall|i: int|
            0 <= i < a_calls.len() ==> (#[trigger] a_calls[i]).same_request(b_calls[i]),
    ensures
        ({
            let in_a = replies(fresh_engine(a, a_built), a_calls, formula);
            let in_b = replies(fresh_engine(b, b_built), b_calls, formula);
            &&& in_a.len() == a_calls.len()
            &&& in_b.len() == a_calls.len()
            &&& forall|i: int| 0 <= i < a_calls.len() ==> same_reply(#[trigger] in_a[i], in_b[i])
        }),
    decreases a_calls.len(),
{
    if a_calls.len() > 0 {
        let a_before = a_calls.drop_last();
        let b_before = b_calls.drop_last();
        assert forall|i: int| 0 <= i < a_before.len() implies (
        #[trigger] a_before[i]).same_request(b_before[i]) by {
            assert(a_calls[i].same_request(b_calls[i]));
        }
        runs_are_replayed(a, a_built, a_before, b, b_built, b_before, formula);
        lemma_run(a, a_built, a_before);
        lemma_run(b, b_built, b_before);
        let a_state = run(fresh_engine(a, a_built), a_before);
        let b_state = run(fresh_engine(b, b_built), b_before);
        let last = a_calls.len() - 1;
        assert(a_calls[last].same_request(b_calls[last]));
        let op = a_calls.last().ctx.op;
        all_lists_every_op_once(op, 0);
        assert(at_rest(a_state.of(op), policy_for(a, op)));
        assert(at_rest(b_state.of(op), policy_for(b, op)));
        assert(policy_for(a, op) == policy_for(b, op));
        assert(same_reply(
            a_calls.last().reply_in(a_state, formula),
            b_calls.last().reply_in(b_state, formula),
        ));
        let in_a = replies(fresh_engine(a, a_built), a_calls, formula);
        let in_b = replies(fresh_engine(b, b_built), b_calls, formula);
        let a_earlier = replies(fresh_engine(a, a_built), a_before, formula);
        let b_earlier = replies(fresh_engine(b, b_built), b_before, formula);
        assert forall|i: int| 0 <= i < a_calls.len() implies same_reply(
            #[trigger] in_a[i],
            in_b[i],
        ) by {
            if i < last {
                assert(same_reply(a_earlier[i], b_earlier[i]));
            }
        }
    }
}

/// A configuration that leaves an operation kind out, and one that gives it the
/// standard policy, make engines that cannot be told apart.
pub proof fn an_absent_kind_has_the_standard_policy<T>(
    config: Config,
    explicit: Config,
    op: FsOp,
    built_nanos: u128,
    calls: Seq<Call<T>>,
    formula: Formula,
)
    requires
        explicit.seed == config.seed,
        !config.ops@.contains_key(op),
        explicit.ops@ == config.ops@.insert(op, PolicyModel::standard()),
    ensures
        same_policies(config, explicit),
        fresh_engine(config, built_nanos) == fresh_engine(explicit, built_nanos),
        replies(fresh_engine(config, built_nanos), calls, formula) == replies(
            fresh_engine(explicit, built_nanos),
            calls,
            formula,
        ),
{
    assert forall|other: FsOp| #[trigger]
        policy_for(config, other) == policy_for(explicit, other) by {}
    assert(fresh_engine(config, built_nanos) =~= fresh_engine(explicit, built_nanos)) by {
        assert forall|i: int| 0 <= i < OP_COUNT implies #[trigger] fresh_engine(
            config,
            built_nanos,
        ).ops[i] == fresh_engine(explicit, built_nanos).ops[i] by {
            assert(policy_for(config, FsOp::at(i)) == policy_for(explicit, FsOp::at(i)));
        }
    }
}

} // verus!
