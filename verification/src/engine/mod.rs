//! The lifecycle of an operation.
//!
//! Every operation goes through the same steps:
//!
//! 1. [`SimEngine::begin_op`] gives it a sequence number and asks for a
//!    concurrency slot. It is admitted, or put in the queue, or rejected.
//! 2. A queued operation sleeps and tries again with [`SimEngine::wait_op`].
//! 3. [`SimEngine::sample_op`] draws a fault and a latency, and reserves
//!    bandwidth.
//! 4. [`SimEngine::plan_op`] says how long the caller has to sleep.
//! 5. [`OpPlanned::run_body`] does the operation's own work, unless a fault is
//!    injected.
//! 6. [`SimEngine::finish_op`] records the outcome and frees the slot.
//!
//! Each step uses up what the one before it yielded, so none can be left out or
//! taken twice. An operation that cannot go on, because its own work panics, is
//! abandoned: its slot is given back with [`SimEngine::release_op`], and nothing
//! is recorded.
//!
//! The engine decides and accounts. Sleeping, reading clocks and evaluating
//! real-valued formulas is up to the caller, who hands in what came out.

use vstd::prelude::*;

use crate::config::{Config, OpPolicy, Tier};
use crate::errno::EAGAIN;
use crate::error::FsError;
use crate::events::{Event, Outcome};
use crate::limiter::concurrency::lemma_counters_fit;
use crate::limiter::{
    Admission, BandwidthLimiter, BlockingLimiter, LimiterGuard, QueueTicket, Reservation,
};
use crate::metrics::{HistogramRecorder, Tally};
use crate::op::{all_lists_every_op_once, FsOp, OP_COUNT};
use crate::sampler::{clamp_latency_us, sample_fault, sample_latency, SampleKey};

pub mod context;
pub mod laws;
pub mod model;
pub mod promises;
pub mod runs;

use self::model::{
    bandwidth_wait, errno_of, event_of, fresh_engine, latency_of, lemma_no_requests_yet,
    lemma_requests_update, micros, policy_for, tier_of,
};

pub use self::context::OpContext;
pub use self::model::{EngineModel, OpModel, OpPlan, OpSample, TokenOutcome, MAX_SLEEP_NANOS};

verus! {

/// What the engine holds for one operation kind.
#[derive(Debug)]
struct OpResources {
    policy: OpPolicy,
    limiter: BlockingLimiter,
    bandwidth: Option<BandwidthLimiter>,
    /// The bandwidth limiter of the large tier, if it has one.
    large_bandwidth: Option<BandwidthLimiter>,
}

/// The simulation engine.
#[derive(Debug)]
pub struct SimEngine {
    seed: u64,
    resources: [OpResources; 11],
    seq: u64,
    metrics: HistogramRecorder,
}

/// An operation that holds a slot.
#[derive(Debug)]
pub struct OpTicket {
    ctx: OpContext,
    seq: u64,
    guard: LimiterGuard,
}

/// An operation that waits for a slot.
#[derive(Debug)]
pub struct OpQueued {
    ctx: OpContext,
    seq: u64,
    ticket: QueueTicket,
}

/// How an operation starts.
#[derive(Debug)]
pub enum OpStart {
    /// It holds a slot.
    Admitted(OpTicket),
    /// It waits for one.
    Queued(OpQueued),
    /// It was turned away with this error, and is over.
    Rejected(Event, FsError),
}

/// How a wait goes on.
#[derive(Debug)]
pub enum OpWait {
    /// The operation holds a slot.
    Admitted(OpTicket),
    /// It has to wait on.
    Waiting(OpQueued),
}

/// An operation for which everything was drawn.
#[derive(Debug)]
pub struct OpSampled {
    ticket: OpTicket,
    sample: OpSample,
}

/// An operation that is to sleep, and then to do its own work.
#[derive(Debug)]
pub struct OpPlanned {
    ticket: OpTicket,
    fault: Option<i32>,
    plan: OpPlan,
}

/// An operation whose own work is done.
#[derive(Debug)]
pub struct OpDone<T> {
    ticket: OpTicket,
    plan: OpPlan,
    result: Result<T, FsError>,
}

/// An operation that was given up, and still holds its slot.
#[derive(Debug)]
pub struct OpAbandoned {
    ticket: OpTicket,
}

impl OpTicket {
    /// Give the operation up.
    pub fn abandon(self) -> (abandoned: OpAbandoned)
        ensures
            abandoned.admitted() == self,
    {
        OpAbandoned { ticket: self }
    }

    /// The operation.
    pub closed spec fn context(self) -> OpContext {
        self.ctx
    }

    /// Its sequence number.
    pub closed spec fn number(self) -> u64 {
        self.seq
    }

    /// How long it waited for its slot, in nanoseconds.
    pub closed spec fn waited(self) -> u128 {
        self.guard.waited()
    }
}

impl OpQueued {
    /// The operation.
    pub closed spec fn context(self) -> OpContext {
        self.ctx
    }

    /// Its sequence number.
    pub closed spec fn number(self) -> u64 {
        self.seq
    }

    /// The operation kind whose queue this waits in.
    pub fn op(&self) -> (op: FsOp)
        ensures
            op == self.context().op,
    {
        self.ctx.op
    }
}

impl OpSampled {
    /// The operation.
    pub closed spec fn admitted(self) -> OpTicket {
        self.ticket
    }

    /// What was drawn for it.
    pub closed spec fn drawn(self) -> OpSample {
        self.sample
    }

    /// What was drawn.
    pub fn sample(&self) -> (sample: OpSample)
        ensures
            sample == self.drawn(),
    {
        self.sample
    }
}

impl OpPlanned {
    /// The operation.
    pub closed spec fn admitted(self) -> OpTicket {
        self.ticket
    }

    /// The fault to inject into it.
    pub closed spec fn injected(self) -> Option<i32> {
        self.fault
    }

    /// What it has to wait for.
    pub closed spec fn waits(self) -> OpPlan {
        self.plan
    }

    /// What to wait for.
    pub fn plan(&self) -> (plan: OpPlan)
        ensures
            plan == self.waits(),
    {
        self.plan
    }

    /// Give the operation up.
    pub fn abandon(self) -> (abandoned: OpAbandoned)
        ensures
            abandoned.admitted() == self.admitted(),
    {
        OpAbandoned { ticket: self.ticket }
    }

    /// Do the work of the operation, unless a fault is injected into it.
    pub fn run_body<T, F: FnOnce() -> Result<T, FsError>>(self, body: F) -> (done: OpDone<T>)
        requires
            self.injected() is None ==> body.requires(()),
        ensures
            done.admitted() == self.admitted(),
            done.waits() == self.waits(),
            match self.injected() {
                Some(errno) => done.outcome() == Err::<T, FsError>(FsError::Errno(errno)),
                None => body.ensures((), done.outcome()),
            },
    {
        let result = match self.fault {
            Some(errno) => Err(FsError::Errno(errno)),
            None => body(),
        };
        OpDone { ticket: self.ticket, plan: self.plan, result }
    }
}

impl<T> OpDone<T> {
    /// The operation.
    pub closed spec fn admitted(self) -> OpTicket {
        self.ticket
    }

    /// What it has waited for.
    pub closed spec fn waits(self) -> OpPlan {
        self.plan
    }

    /// What came of it.
    pub closed spec fn outcome(self) -> Result<T, FsError> {
        self.result
    }

    /// Give the operation up, whatever came of it.
    pub fn abandon(self) -> (abandoned: OpAbandoned)
        ensures
            abandoned.admitted() == self.admitted(),
    {
        OpAbandoned { ticket: self.ticket }
    }
}

impl OpAbandoned {
    /// The operation.
    pub closed spec fn admitted(self) -> OpTicket {
        self.ticket
    }
}

impl OpResources {
    spec fn modeled(self, tally: Tally) -> OpModel {
        OpModel {
            policy: self.policy@,
            limiter: self.limiter@,
            base_bucket: match self.bandwidth {
                Some(limiter) => Some(limiter@),
                None => None,
            },
            large_bucket: match self.large_bandwidth {
                Some(limiter) => Some(limiter@),
                None => None,
            },
            tally,
        }
    }
}

impl View for SimEngine {
    type V = EngineModel;

    closed spec fn view(&self) -> EngineModel {
        EngineModel {
            seed: self.seed,
            seq: self.seq,
            ops: Seq::new(
                OP_COUNT as nat,
                |i: int| self.resources@[i].modeled(self.metrics.tally(FsOp::at(i))),
            ),
        }
    }
}

impl OpResources {
    /// The resources of `op` under a configuration.
    fn new(config: &Config, op: FsOp, now_nanos: u128) -> (resources: Self)
        ensures
            resources.modeled(Tally::none()) == OpModel::fresh(policy_for(*config, op), now_nanos),
    {
        let policy = match config.ops.get(op) {
            Some(configured) => configured.clone(),
            None => OpPolicy::default(),
        };
        let limiter = BlockingLimiter::new(policy.concurrency_cap, policy.queue_cap);
        let bandwidth = match &policy.bandwidth {
            Some(profile) => Some(BandwidthLimiter::new(profile, now_nanos)),
            None => None,
        };
        let large_bandwidth = match &policy.size_tier {
            Some(tier) => match &tier.large.bandwidth {
                Some(profile) => Some(BandwidthLimiter::new(profile, now_nanos)),
                None => None,
            },
            None => None,
        };
        OpResources { policy, limiter, bandwidth, large_bandwidth }
    }
}

impl SimEngine {
    /// The state is sound.
    pub closed spec fn wf(self) -> bool {
        self@.wf() && self.metrics.wf()
    }

    /// The state of a sound engine is sound for each operation kind.
    pub proof fn state_is_sound(self)
        requires
            self.wf(),
        ensures
            self@.wf(),
    {
    }

    /// Build a new engine from a [`Config`], at the time `now_nanos`.
    ///
    /// Unspecified ops fall back to [`OpPolicy::default`].
    pub fn new(config: &Config, now_nanos: u128) -> (engine: Self)
        ensures
            engine.wf(),
            engine@ == fresh_engine(*config, now_nanos),
    {
        let resources = [
            OpResources::new(config, FsOp::Lookup, now_nanos),
            OpResources::new(config, FsOp::GetAttr, now_nanos),
            OpResources::new(config, FsOp::Open, now_nanos),
            OpResources::new(config, FsOp::Read, now_nanos),
            OpResources::new(config, FsOp::Write, now_nanos),
            OpResources::new(config, FsOp::Flush, now_nanos),
            OpResources::new(config, FsOp::Release, now_nanos),
            OpResources::new(config, FsOp::Fsync, now_nanos),
            OpResources::new(config, FsOp::Readdir, now_nanos),
            OpResources::new(config, FsOp::Statfs, now_nanos),
            OpResources::new(config, FsOp::Access, now_nanos),
        ];
        let engine = SimEngine {
            seed: config.seed,
            resources,
            seq: 0,
            metrics: HistogramRecorder::new(),
        };
        proof {
            let fresh = fresh_engine(*config, now_nanos);
            assert forall|i: int| 0 <= i < OP_COUNT implies #[trigger] engine@.ops[i]
                == fresh.ops[i] by {
                assert(engine.metrics.tally(FsOp::at(i)) == Tally::none());
            }
            assert(engine@ =~= fresh);
            lemma_no_requests_yet(*config, now_nanos, OP_COUNT as int);
        }
        engine
    }

    /// The master seed used to derive all sampler streams.
    pub fn seed(&self) -> (seed: u64)
        ensures
            seed == self@.seed,
    {
        self.seed
    }

    /// The metrics recorder.
    pub fn metrics(&self) -> (metrics: &HistogramRecorder)
        requires
            self.wf(),
        ensures
            metrics.wf(),
            forall|op: FsOp| #[trigger] metrics.tally(op) == self@.of(op).tally,
    {
        proof {
            assert forall|op: FsOp| #[trigger] self.metrics.tally(op) == self@.of(op).tally by {
                all_lists_every_op_once(op, 0);
            }
        }
        &self.metrics
    }
}

impl SimEngine {
    /// Whether the counters can take one more operation of this kind.
    pub fn has_room(&self, op: FsOp) -> (room: bool)
        requires
            self.wf(),
        ensures
            room == (self@.of(op).limiter.requests() < u64::MAX),
    {
        proof {
            all_lists_every_op_once(op, 0);
            assert(self@.ops[op.position()].wf());
        }
        let stats = self.resources[op.index()].limiter.stats();
        let requests: u128 = stats.total_acquired as u128 + stats.total_rejected as u128
            + stats.queued as u128;
        requests < u64::MAX as u128
    }

    /// Whether the counters can take the wait of one more operation of this kind.
    pub fn has_room_for_wait(&self, op: FsOp, waited_nanos: u128) -> (room: bool)
        requires
            self.wf(),
        ensures
            room == (self@.of(op).limiter.waited_ns + (waited_nanos as u64) <= u64::MAX),
    {
        proof {
            all_lists_every_op_once(op, 0);
        }
        let stats = self.resources[op.index()].limiter.stats();
        waited_nanos as u64 <= u64::MAX - stats.total_queue_wait_ns
    }

    /// Start an operation: give it a sequence number and ask for a slot.
    ///
    /// `elapsed_us` and `ts_unix_nanos` are the time since its arrival and the
    /// wall-clock time; they go into the event of an operation that is turned
    /// away.
    pub fn begin_op(&mut self, ctx: OpContext, elapsed_us: u64, ts_unix_nanos: u128) -> (start:
        OpStart)
        requires
            old(self).wf(),
            old(self)@.of(ctx.op).limiter.requests() < u64::MAX,
        ensures
            final(self).wf(),
            final(self)@.same_rules(old(self)@),
            ({
                let state = old(self)@.of(ctx.op);
                match start {
                    OpStart::Admitted(ticket) => {
                        &&& state.limiter.has_slot()
                        &&& ticket.context() == ctx
                        &&& ticket.number() == old(self)@.seq
                        &&& ticket.waited() == 0
                        &&& final(self)@ == old(self)@.admitting(ctx.op)
                    },
                    OpStart::Queued(queued) => {
                        &&& !state.limiter.has_slot()
                        &&& state.limiter.has_place()
                        &&& queued.context() == ctx
                        &&& queued.number() == old(self)@.seq
                        &&& final(self)@ == old(self)@.queueing(ctx.op)
                    },
                    OpStart::Rejected(event, error) => {
                        &&& !state.limiter.has_slot()
                        &&& !state.limiter.has_place()
                        &&& error == FsError::Errno(EAGAIN)
                        &&& event == event_of(
                            ctx,
                            old(self)@.seq,
                            Some(EAGAIN),
                            (0, 0, 0),
                            elapsed_us,
                            ts_unix_nanos,
                        )
                        &&& final(self)@ == old(self)@.refusing(ctx.op, elapsed_us)
                    },
                }
            }),
    {
        let i: usize = ctx.op.index();
        proof {
            all_lists_every_op_once(ctx.op, 0);
            assert(self@.ops[i as int].wf());
            lemma_counters_fit(self.resources@[i as int].limiter);
        }
        let seq: u64 = self.seq;
        self.seq = self.seq.wrapping_add(1);
        let start = match self.resources[i].limiter.acquire() {
            Ok(Admission::Granted(guard)) => OpStart::Admitted(OpTicket { ctx, seq, guard }),
            Ok(Admission::Queued(ticket)) => OpStart::Queued(OpQueued { ctx, seq, ticket }),
            Err(error) => {
                self.metrics.record(ctx.op, elapsed_us, true);
                let event = Event {
                    ts_unix_nanos,
                    seq,
                    op: ctx.op,
                    ino: ctx.ino,
                    offset: ctx.offset,
                    len: ctx.len,
                    outcome: Outcome::Error,
                    errno: Some(error.as_errno()),
                    queue_wait_us: 0,
                    injected_latency_us: 0,
                    bandwidth_delay_us: 0,
                    total_duration_us: elapsed_us,
                };
                OpStart::Rejected(event, error)
            },
        };
        proof {
            lemma_one_kind_changed(*old(self), *self, ctx.op);
        }
        start
    }
}

impl SimEngine {
    /// A queued operation was woken: see whether it gets a slot now.
    ///
    /// `waited_nanos` is the time since it entered the queue.
    pub fn wait_op(&mut self, queued: OpQueued, waited_nanos: u128) -> (wait: OpWait)
        requires
            old(self).wf(),
            old(self)@.of(queued.context().op).limiter.queued > 0,
            old(self)@.of(queued.context().op).limiter.waited_ns + (waited_nanos as u64)
                <= u64::MAX,
        ensures
            final(self).wf(),
            final(self)@.same_rules(old(self)@),
            ({
                let ctx = queued.context();
                let state = old(self)@.of(ctx.op);
                match wait {
                    OpWait::Admitted(ticket) => {
                        &&& state.limiter.has_slot()
                        &&& ticket.context() == ctx
                        &&& ticket.number() == queued.number()
                        &&& ticket.waited() == waited_nanos
                        &&& final(self)@ == old(self)@.letting_in(
                            ctx.op,
                            (waited_nanos as u64) as nat,
                        )
                    },
                    OpWait::Waiting(still) => {
                        &&& !state.limiter.has_slot()
                        &&& still.context() == ctx
                        &&& still.number() == queued.number()
                        &&& final(self)@ == old(self)@
                    },
                }
            }),
    {
        let ctx = queued.ctx;
        let seq: u64 = queued.seq;
        let i: usize = ctx.op.index();
        proof {
            all_lists_every_op_once(ctx.op, 0);
            assert(self@.ops[i as int].wf());
            lemma_counters_fit(self.resources@[i as int].limiter);
        }
        let wait = match self.resources[i].limiter.retry(queued.ticket, waited_nanos) {
            Ok(guard) => OpWait::Admitted(OpTicket { ctx, seq, guard }),
            Err(ticket) => OpWait::Waiting(OpQueued { ctx, seq, ticket }),
        };
        proof {
            lemma_one_kind_changed(*old(self), *self, ctx.op);
        }
        wait
    }
}

/// Pick the tier in force for this call.
///
/// It is the base tier unless all three conditions hold:
/// - the operation is `Read` or `Write`, and
/// - a size tier is configured, and
/// - the requested length is strictly greater than its threshold.
fn select_tier(policy: &OpPolicy, ctx: &OpContext) -> (tier: Tier)
    ensures
        tier == tier_of(policy@, *ctx),
        tier == Tier::Large ==> policy.size_tier is Some,
{
    if ctx.op.is_data() {
        if let Some(large) = &policy.size_tier {
            if ctx.requested_len as u64 > large.threshold_bytes {
                return Tier::Large;
            }
        }
    }
    Tier::Base
}

impl SimEngine {
    /// Draw what happens to an admitted operation, and reserve its bandwidth at
    /// the time `now_nanos`.
    ///
    /// Fault and latency are determined by the rules in force and the key of
    /// the operation alone. Bandwidth is charged for reads and writes only. An
    /// operation that owes a sum of tokens is planned before the next one of its
    /// kind and tier is sampled.
    pub fn sample_op(&mut self, ticket: OpTicket, now_nanos: u128) -> (sampled: OpSampled)
        requires
            old(self).wf(),
            old(self)@.of(ticket.context().op).settled(
                tier_of(old(self)@.of(ticket.context().op).policy, ticket.context()),
            ),
        ensures
            final(self).wf(),
            final(self)@.same_rules(old(self)@),
            sampled.admitted() == ticket,
            sampled.drawn() == old(self)@.drawn_for(ticket.context(), ticket.number(), now_nanos),
            final(self)@ == old(self)@.sampling(ticket.context(), now_nanos),
    {
        let ctx = ticket.ctx;
        let i: usize = ctx.op.index();
        proof {
            all_lists_every_op_once(ctx.op, 0);
            assert(self@.ops[i as int].wf());
        }
        let key = SampleKey {
            seed: self.seed,
            op: ctx.op,
            ino: ctx.ino,
            offset: ctx.offset,
            len: if ctx.len as u64 > u32::MAX as u64 {
                u32::MAX
            } else {
                ctx.len as u32
            },
            seq: ticket.seq,
        };
        let policy = &self.resources[i].policy;
        let tier = select_tier(policy, &ctx);
        let (profile, fault) = match (tier, &policy.size_tier) {
            (Tier::Large, Some(size_tier)) => (
                size_tier.large.latency,
                sample_fault(size_tier.large.faults.as_slice(), key),
            ),
            _ => (policy.latency, sample_fault(policy.faults.as_slice(), key)),
        };
        let body = sample_latency(&profile, key);
        let reservation = if ctx.op.is_data() {
            let bucket = match tier {
                Tier::Base => &mut self.resources[i].bandwidth,
                Tier::Large => &mut self.resources[i].large_bandwidth,
            };
            match bucket {
                Some(limiter) => limiter.reserve(ctx.len as u64, now_nanos),
                None => Reservation::Free,
            }
        } else {
            Reservation::Free
        };
        proof {
            lemma_one_kind_changed(*old(self), *self, ctx.op);
        }
        let sample = OpSample { fault, profile, body, tier, reservation };
        OpSampled { ticket, sample }
    }
}

impl SimEngine {
    /// Whether the bandwidth limiter that an operation was charged to can count
    /// one more that has to wait.
    pub fn can_settle(&self, op: FsOp, tier: Tier) -> (room: bool)
        requires
            self.wf(),
        ensures
            room == (self@.of(op).bucket(tier) matches Some(bucket) ==> bucket.throttled
                < u64::MAX),
    {
        proof {
            all_lists_every_op_once(op, 0);
        }
        let bucket = match tier {
            Tier::Base => &self.resources[op.index()].bandwidth,
            Tier::Large => &self.resources[op.index()].large_bandwidth,
        };
        match bucket {
            Some(limiter) => limiter.can_count(),
            None => true,
        }
    }

    /// Whether the bandwidth limiter of a tier has no sum of tokens pending, so
    /// that the next operation can be sampled.
    pub fn is_settled(&self, op: FsOp, tier: Tier) -> (settled: bool)
        requires
            self.wf(),
        ensures
            settled == self@.of(op).settled(tier),
    {
        proof {
            all_lists_every_op_once(op, 0);
        }
        let bucket = match tier {
            Tier::Base => &self.resources[op.index()].bandwidth,
            Tier::Large => &self.resources[op.index()].large_bandwidth,
        };
        match bucket {
            Some(limiter) => limiter.is_settled(),
            None => true,
        }
    }

    /// Work out how long an operation has to sleep.
    ///
    /// `rounded_us` is the sum of base latency and body, rounded to whole
    /// microseconds. `outcome` is that of the sum of tokens that the sample
    /// owes, if it owes one. An operation into which a fault is injected sleeps
    /// as long as any other. Where the sleep exceeds [`MAX_SLEEP_NANOS`], the
    /// caller cannot but abandon the operation.
    pub fn plan_op(
        &mut self,
        sampled: OpSampled,
        rounded_us: u64,
        outcome: Option<TokenOutcome>,
    ) -> (planned: OpPlanned)
        requires
            old(self).wf(),
            sampled.drawn().reservation matches Reservation::Owed(sum) ==> {
                &&& outcome is Some
                &&& old(self)@.of(sampled.admitted().context().op).bucket(
                    sampled.drawn().tier,
                ) matches Some(bucket)
                &&& bucket.owes(sum)
                &&& bucket.throttled < u64::MAX
            },
            bandwidth_wait(sampled.drawn(), outcome) <= MAX_SLEEP_NANOS,
        ensures
            final(self).wf(),
            final(self)@.same_rules(old(self)@),
            planned.admitted() == sampled.admitted(),
            planned.injected() == sampled.drawn().fault,
            planned.waits().latency_us == latency_of(sampled.drawn(), rounded_us),
            planned.waits().bandwidth_nanos == bandwidth_wait(sampled.drawn(), outcome),
            planned.waits().sleep_nanos == planned.waits().latency_us * 1000
                + planned.waits().bandwidth_nanos,
            final(self)@ == old(self)@.planning(
                sampled.admitted().context().op,
                sampled.drawn(),
                outcome,
            ),
    {
        let ticket = sampled.ticket;
        let sample = sampled.sample;
        let op = ticket.ctx.op;
        let i: usize = op.index();
        proof {
            all_lists_every_op_once(op, 0);
            assert(self@.ops[i as int].wf());
        }
        let latency_us: u64 = clamp_latency_us(&sample.profile, rounded_us);
        let bandwidth_nanos: u128 = match (sample.reservation, outcome) {
            (Reservation::Owed(_), Some(settled)) => {
                let bucket = match sample.tier {
                    Tier::Base => &mut self.resources[i].bandwidth,
                    Tier::Large => &mut self.resources[i].large_bandwidth,
                };
                match bucket {
                    Some(limiter) => limiter.settle(settled.tokens, settled.debt_nanos),
                    None => 0,
                }
            },
            _ => 0,
        };
        proof {
            lemma_one_kind_changed(*old(self), *self, op);
        }
        let sleep_nanos: u128 = latency_us as u128 * 1000 + bandwidth_nanos;
        let plan = OpPlan { latency_us, bandwidth_nanos, sleep_nanos };
        OpPlanned { ticket, fault: sample.fault, plan }
    }

    /// Record the outcome of an operation and free its slot.
    ///
    /// `total_us` is the time since its arrival, `ts_unix_nanos` the wall-clock
    /// time. One event and one histogram sample come of every operation, along
    /// with the result of its own work.
    pub fn finish_op<T>(&mut self, done: OpDone<T>, total_us: u64, ts_unix_nanos: u128) -> (
        finished: (Event, Result<T, FsError>))
        requires
            old(self).wf(),
            old(self)@.of(done.admitted().context().op).limiter.inflight > 0,
        ensures
            final(self).wf(),
            final(self)@.same_rules(old(self)@),
            finished.1 == done.outcome(),
            finished.0 == event_of(
                done.admitted().context(),
                done.admitted().number(),
                errno_of(done.outcome()),
                (
                    micros(done.admitted().waited()),
                    done.waits().latency_us,
                    micros(done.waits().bandwidth_nanos),
                ),
                total_us,
                ts_unix_nanos,
            ),
            final(self)@ == old(self)@.finishing(
                done.admitted().context().op,
                total_us,
                done.outcome() is Err,
            ),
    {
        let ticket = done.ticket;
        let plan = done.plan;
        let result = done.result;
        let ctx = ticket.ctx;
        let i: usize = ctx.op.index();
        proof {
            all_lists_every_op_once(ctx.op, 0);
            assert(self@.ops[i as int].wf());
        }
        let (outcome, errno) = match &result {
            Ok(_) => (Outcome::Success, None),
            Err(error) => (Outcome::Error, Some(error.as_errno())),
        };
        let event = Event {
            ts_unix_nanos,
            seq: ticket.seq,
            op: ctx.op,
            ino: ctx.ino,
            offset: ctx.offset,
            len: ctx.len,
            outcome,
            errno,
            queue_wait_us: (ticket.guard.queue_wait_nanos() / 1000) as u64,
            injected_latency_us: plan.latency_us,
            bandwidth_delay_us: (plan.bandwidth_nanos / 1000) as u64,
            total_duration_us: total_us,
        };
        self.metrics.record(ctx.op, total_us, result.is_err());
        self.resources[i].limiter.release(ticket.guard);
        proof {
            lemma_one_kind_changed(*old(self), *self, ctx.op);
        }
        (event, result)
    }

    /// Free the slot of an abandoned operation, of which nothing is recorded.
    pub fn release_op(&mut self, abandoned: OpAbandoned)
        requires
            old(self).wf(),
            old(self)@.of(abandoned.admitted().context().op).limiter.inflight > 0,
        ensures
            final(self).wf(),
            final(self)@.same_rules(old(self)@),
            final(self)@ == old(self)@.releasing(abandoned.admitted().context().op),
    {
        let ticket = abandoned.ticket;
        let op = ticket.ctx.op;
        let i: usize = op.index();
        proof {
            all_lists_every_op_once(op, 0);
            assert(self@.ops[i as int].wf());
        }
        self.resources[i].limiter.release(ticket.guard);
        proof {
            lemma_one_kind_changed(*old(self), *self, op);
        }
    }
}

/// What changes for one operation kind changes nothing else in the state: it
/// changes the number of requests by as much as the number of its own, and where
/// the state for that kind stays sound, so does the state for every kind.
proof fn lemma_one_kind_changed(before: SimEngine, after: SimEngine, op: FsOp)
    requires
        before@.wf(),
        after.seed == before.seed,
        forall|j: int|
            0 <= j < OP_COUNT && j != op.position() ==> after.resources@[j]
                == #[trigger] before.resources@[j],
        forall|other: FsOp|
            other != op ==> after.metrics.tally(other) == before.metrics.tally(other),
    ensures
        after@ == (EngineModel { seq: after.seq, ..before@ }).with(
            op,
            after.resources@[op.position()].modeled(after.metrics.tally(op)),
        ),
        after.resources@[op.position()].policy@ == before.resources@[op.position()].policy@
            ==> after@.same_rules(before@),
        after@.requests() == before@.requests() + after@.of(op).limiter.requests() - before@.of(
            op,
        ).limiter.requests(),
        after@.of(op).wf() ==> forall|i: int| 0 <= i < OP_COUNT ==> (#[trigger] after@.ops[i]).wf(),
        before@.with(op, before@.of(op)) == before@,
{
    let target = (EngineModel { seq: after.seq, ..before@ }).with(
        op,
        after.resources@[op.position()].modeled(after.metrics.tally(op)),
    );
    all_lists_every_op_once(op, 0);
    assert forall|j: int| 0 <= j < OP_COUNT implies #[trigger] after@.ops[j] == target.ops[j] by {
        all_lists_every_op_once(op, j);
        if j != op.position() {
            assert(before.resources@[j] == after.resources@[j]);
            assert(before.metrics.tally(FsOp::at(j)) == after.metrics.tally(FsOp::at(j)));
        }
    }
    assert(after@.ops =~= target.ops);
    if after.resources@[op.position()].policy@ == before.resources@[op.position()].policy@ {
        assert forall|other: FsOp| (#[trigger] after@.of(other)).policy == before@.of(
            other,
        ).policy by {
            all_lists_every_op_once(other, op.position());
            if other != op {
                assert(before.resources@[other.position()] == after.resources@[other.position()]);
            }
        }
    }
    lemma_requests_update(before@.ops, op.position(), after@.of(op), OP_COUNT as int);
    if after@.of(op).wf() {
        assert forall|i: int| 0 <= i < OP_COUNT implies (#[trigger] after@.ops[i]).wf() by {
            assert(before@.ops[i].wf());
        }
    }
    assert(before@.ops.update(op.position(), before@.of(op)) =~= before@.ops);
}

} // verus!
