//! The lifecycle of operations, driven step by step on a clock of the test's own.

use fusecraft::binary64::Binary64;
use fusecraft::config::{
    BandwidthProfile, Config, FaultRule, LargeTierPolicy, LatencyProfile, OpPolicy, SizeTier, Tier,
};
use fusecraft::engine::{
    OpContext, OpDone, OpPlan, OpPlanned, OpSample, OpStart, OpTicket, OpWait, SimEngine,
    TokenOutcome, MAX_SLEEP_NANOS,
};
use fusecraft::error::FsError;
use fusecraft::events::{Event, Outcome};
use fusecraft::limiter::{Balance, Reservation, TokenSum};
use fusecraft::op::FsOp;
use fusecraft::sampler::LatencyDraw;

const MILLI: u128 = 1_000_000;

fn number(value: f64) -> Binary64 {
    Binary64::from_bits(value.to_bits())
}

fn value(x: Binary64) -> f64 {
    f64::from_bits(x.bits)
}

fn rounded_us(sample: &OpSample) -> u64 {
    let uniform = |draw: u64| draw as f64 / (1u64 << 53) as f64;
    let body = match sample.body {
        LatencyDraw::Constant(us) => value(us),
        LatencyDraw::Lognormal {
            median,
            sigma,
            u1,
            u2,
        } => {
            let z = (-2.0 * uniform(u1).max(f64::MIN_POSITIVE).ln()).sqrt()
                * (2.0 * std::f64::consts::PI * uniform(u2)).cos();
            (value(median).ln() + value(sigma) * z).exp()
        }
        LatencyDraw::Pareto { xm, alpha, u } => {
            value(xm) / uniform(u).max(f64::MIN_POSITIVE).powf(1.0 / value(alpha))
        }
    };
    let total = sample.profile.base_us as f64 + body;
    total.min(sample.profile.max_us as f64).max(0.0).round() as u64
}

fn outcome_of(sum: &TokenSum) -> TokenOutcome {
    let burst = sum.burst_bytes as f64;
    let mut tokens = match sum.balance {
        Balance::Full => burst,
        Balance::Tokens(tokens) => value(tokens),
    };
    if let Some(nanos) = sum.refill_nanos {
        tokens = (tokens + nanos as f64 / 1e9 * value(sum.rate)).min(burst);
    }
    tokens -= sum.bytes as f64;
    TokenOutcome {
        tokens: number(tokens),
        debt_nanos: if tokens < 0.0 {
            (-tokens / value(sum.rate) * 1e9) as u128
        } else {
            0
        },
    }
}

/// An engine, a clock, and the events so far.
struct Sim {
    engine: SimEngine,
    now: u128,
    events: Vec<Event>,
}

impl Sim {
    fn new(cfg: &Config) -> Self {
        Sim {
            engine: SimEngine::new(cfg, 0),
            now: 0,
            events: Vec::new(),
        }
    }

    fn begin(&mut self, ctx: OpContext) -> OpStart {
        assert!(self.engine.has_room(ctx.op));
        self.engine.begin_op(ctx, 0, self.now)
    }

    fn admitted(&mut self, ctx: OpContext) -> OpTicket {
        match self.begin(ctx) {
            OpStart::Admitted(ticket) => ticket,
            other => panic!("expected admission, got {other:?}"),
        }
    }

    fn sample_and_plan(&mut self, ticket: OpTicket) -> (OpSample, OpPlanned) {
        let sampled = self.engine.sample_op(ticket, self.now);
        let sample = sampled.sample();
        let outcome = match &sample.reservation {
            Reservation::Free => None,
            Reservation::Owed(sum) => Some(outcome_of(sum)),
        };
        let planned = self
            .engine
            .plan_op(sampled, rounded_us(&sample), outcome);
        (sample, planned)
    }

    fn finish<T>(&mut self, done: OpDone<T>, start: u128) -> Result<T, FsError> {
        let total_us = ((self.now - start) / 1000) as u64;
        let (event, result) = self.engine.finish_op(done, total_us, self.now);
        self.events.push(event);
        result
    }

    fn run_op<T>(
        &mut self,
        ctx: OpContext,
        body: impl FnOnce() -> Result<T, FsError>,
    ) -> Result<T, FsError> {
        let start = self.now;
        let ticket = match self.begin(ctx) {
            OpStart::Admitted(ticket) => ticket,
            OpStart::Queued(_) => panic!("nothing else is running"),
            OpStart::Rejected(event, error) => {
                self.events.push(event);
                return Err(error);
            }
        };
        let (_, planned) = self.sample_and_plan(ticket);
        self.now += planned.plan().sleep_nanos;
        let done = planned.run_body(body);
        self.finish(done, start)
    }
}

fn zero_latency_policy() -> OpPolicy {
    OpPolicy {
        concurrency_cap: 4,
        queue_cap: 16,
        latency: LatencyProfile {
            base_us: 0,
            lognormal_median_us: number(0.0),
            lognormal_sigma: number(0.0),
            pareto_weight: number(0.0),
            pareto_xm_us: number(1.0),
            pareto_alpha: number(1.5),
            max_us: 1_000_000,
        },
        bandwidth: None,
        faults: Vec::new(),
        size_tier: None,
    }
}

fn config_with(op: FsOp, policy: OpPolicy) -> Config {
    let mut cfg = Config::default();
    cfg.ops.insert(op, policy);
    cfg
}

#[test]
fn zero_latency_runs_closure_and_returns_value() {
    let cfg = config_with(FsOp::Read, zero_latency_policy());
    let mut sim = Sim::new(&cfg);
    let ctx = OpContext::data(FsOp::Read, 100, 0, 4096);
    let result = sim.run_op(ctx, || Ok::<u32, FsError>(7)).unwrap();
    assert_eq!(result, 7);
}

#[test]
fn injected_error_skips_closure() {
    let mut policy = zero_latency_policy();
    policy.faults = vec![FaultRule {
        op: FsOp::Read,
        errno: libc::EIO,
        rate: number(1.0),
    }];
    let cfg = config_with(FsOp::Read, policy);
    let mut sim = Sim::new(&cfg);
    let ctx = OpContext::data(FsOp::Read, 100, 0, 4096);
    let mut ran = false;
    let err = sim
        .run_op(ctx, || {
            ran = true;
            Ok::<(), FsError>(())
        })
        .unwrap_err();
    match err {
        FsError::Errno(e) => assert_eq!(e, libc::EIO),
        other => panic!("expected EIO, got {other:?}"),
    }
    assert!(!ran, "body should not run on injected fault");
}

#[test]
fn event_is_emitted_for_success() {
    let cfg = config_with(FsOp::Read, zero_latency_policy());
    let mut sim = Sim::new(&cfg);

    sim.run_op(OpContext::data(FsOp::Read, 42, 0, 128), || {
        Ok::<_, FsError>(())
    })
    .unwrap();

    let events = sim.events;
    assert_eq!(events.len(), 1);
    assert_eq!(events[0].op, FsOp::Read);
    assert_eq!(events[0].ino, 42);
    assert_eq!(events[0].len, 128);
    assert!(matches!(events[0].outcome, Outcome::Success));
    assert_eq!(events[0].errno, None);
}

#[test]
fn event_is_emitted_for_injected_error() {
    let mut policy = zero_latency_policy();
    policy.faults = vec![FaultRule {
        op: FsOp::Write,
        errno: libc::ENOSPC,
        rate: number(1.0),
    }];
    let cfg = config_with(FsOp::Write, policy);
    let mut sim = Sim::new(&cfg);

    let _ = sim.run_op(OpContext::data(FsOp::Write, 1, 0, 16), || {
        Ok::<_, FsError>(())
    });

    let events = sim.events;
    assert_eq!(events.len(), 1);
    assert!(matches!(events[0].outcome, Outcome::Error));
    assert_eq!(events[0].errno, Some(libc::ENOSPC));
}

#[test]
fn limiter_releases_after_injected_error() {
    let mut policy = zero_latency_policy();
    policy.concurrency_cap = 1;
    policy.queue_cap = 0;
    policy.faults = vec![FaultRule {
        op: FsOp::Read,
        errno: libc::EIO,
        rate: number(1.0),
    }];
    let cfg = config_with(FsOp::Read, policy);
    let mut sim = Sim::new(&cfg);
    let ctx = OpContext::data(FsOp::Read, 1, 0, 0);

    // Sequential calls all see EIO: they succeed at acquiring the limiter each time.
    for _ in 0..5 {
        let err = sim.run_op(ctx, || Ok::<(), FsError>(())).unwrap_err();
        match err {
            FsError::Errno(e) => assert_eq!(e, libc::EIO),
            other => panic!("unexpected {other:?}"),
        }
    }
}

#[test]
fn latency_injection_blocks_caller() {
    let mut policy = zero_latency_policy();
    policy.latency.base_us = 20_000; // 20 ms
    let cfg = config_with(FsOp::Open, policy);
    let mut sim = Sim::new(&cfg);
    let ctx = OpContext::metadata(FsOp::Open, 1);
    sim.run_op(ctx, || Ok::<_, FsError>(())).unwrap();
    assert!(
        sim.now >= 15 * MILLI,
        "expected >=15ms delay, got {:?}",
        sim.now
    );
    assert_eq!(sim.now, 20 * MILLI);
    assert_eq!(sim.events[0].injected_latency_us, 20_000);
}

#[test]
fn seq_increments_monotonically() {
    let cfg = config_with(FsOp::GetAttr, zero_latency_policy());
    let mut sim = Sim::new(&cfg);
    for _ in 0..5 {
        sim.run_op(OpContext::metadata(FsOp::GetAttr, 1), || {
            Ok::<_, FsError>(())
        })
        .unwrap();
    }
    let seqs: Vec<_> = sim.events.iter().map(|e| e.seq).collect();
    assert_eq!(seqs, vec![0, 1, 2, 3, 4]);
}

#[test]
fn bandwidth_only_applies_to_read_write() {
    // Open with a nonsense bandwidth: should be ignored (no delay).
    let mut policy = zero_latency_policy();
    policy.bandwidth = Some(BandwidthProfile {
        bytes_per_sec: number(1.0),
        burst_bytes: 0,
    });
    let cfg = config_with(FsOp::Open, policy);
    let mut sim = Sim::new(&cfg);
    sim.run_op(OpContext::data(FsOp::Open, 1, 0, 1_000_000), || {
        Ok::<_, FsError>(())
    })
    .unwrap();
    // Without bandwidth applying, the total time should be well under 1s
    // (zero latency + no throttle).
    assert!(sim.now < 500 * MILLI);
}

#[test]
fn metrics_record_per_op() {
    let cfg = config_with(FsOp::Read, zero_latency_policy());
    let mut sim = Sim::new(&cfg);
    for _ in 0..10 {
        sim.run_op(OpContext::data(FsOp::Read, 1, 0, 128), || {
            Ok::<_, FsError>(())
        })
        .unwrap();
    }
    let summary = sim.engine.metrics().summary();
    let read = summary.iter().find(|s| s.op == FsOp::Read).unwrap();
    assert_eq!(read.count, 10);
    assert_eq!(read.errors, 0);
}

#[test]
fn limiter_rejection_is_recorded_as_error() {
    let mut policy = zero_latency_policy();
    policy.concurrency_cap = 0;
    policy.queue_cap = 0;
    let cfg = config_with(FsOp::Read, policy);
    let mut sim = Sim::new(&cfg);

    let err = sim
        .run_op(OpContext::data(FsOp::Read, 1, 0, 0), || {
            Ok::<_, FsError>(())
        })
        .unwrap_err();
    match err {
        FsError::Errno(e) => assert_eq!(e, libc::EAGAIN),
        other => panic!("expected EAGAIN, got {other:?}"),
    }
    let summary = sim.engine.metrics().summary();
    assert_eq!((summary[0].count, summary[0].errors), (1, 1));
    let events = sim.events;
    assert_eq!(events.len(), 1);
    assert!(matches!(events[0].outcome, Outcome::Error));
    assert_eq!(events[0].errno, Some(libc::EAGAIN));
}

// --- Size-tier routing ---

/// Deterministic profile at a single fixed latency.
fn fixed_latency_profile(us: u64) -> LatencyProfile {
    LatencyProfile {
        base_us: us,
        lognormal_median_us: number(0.0),
        lognormal_sigma: number(0.0),
        pareto_weight: number(0.0),
        pareto_xm_us: number(1.0),
        pareto_alpha: number(1.5),
        max_us: us.max(1_000_000),
    }
}

#[test]
fn size_tier_routes_reads_below_threshold_to_base() {
    // Base = 5ms, large = 200ms. A 500-byte read must hit the 5ms base.
    let mut policy = zero_latency_policy();
    policy.latency = fixed_latency_profile(5_000);
    policy.size_tier = Some(SizeTier {
        threshold_bytes: 1024,
        large: LargeTierPolicy {
            latency: fixed_latency_profile(200_000),
            bandwidth: None,
            faults: Vec::new(),
        },
    });
    let cfg = config_with(FsOp::Read, policy);
    let mut sim = Sim::new(&cfg);
    let ctx = OpContext::data(FsOp::Read, 1, 0, 500);
    sim.run_op(ctx, || Ok::<_, FsError>(())).unwrap();
    let elapsed = sim.now;
    assert!(
        elapsed < 50 * MILLI,
        "expected base-tier latency (~5ms), got {elapsed:?}"
    );
}

#[test]
fn size_tier_routes_reads_above_threshold_to_large() {
    // Base = 0us, large = 50ms. A 2000-byte read must hit the 50ms tier.
    let mut policy = zero_latency_policy();
    policy.size_tier = Some(SizeTier {
        threshold_bytes: 1024,
        large: LargeTierPolicy {
            latency: fixed_latency_profile(50_000),
            bandwidth: None,
            faults: Vec::new(),
        },
    });
    let cfg = config_with(FsOp::Read, policy);
    let mut sim = Sim::new(&cfg);
    let ctx = OpContext::data(FsOp::Read, 1, 0, 2_000);
    sim.run_op(ctx, || Ok::<_, FsError>(())).unwrap();
    let elapsed = sim.now;
    assert!(
        elapsed >= 40 * MILLI,
        "expected >=40ms large-tier latency, got {elapsed:?}"
    );
}

#[test]
fn size_tier_threshold_is_strict_and_goes_by_the_request() {
    let mut policy = zero_latency_policy();
    policy.size_tier = Some(SizeTier {
        threshold_bytes: 1024,
        large: LargeTierPolicy {
            latency: fixed_latency_profile(50_000),
            bandwidth: None,
            faults: Vec::new(),
        },
    });
    let cfg = config_with(FsOp::Read, policy);
    let mut tier = |ctx: OpContext| {
        let mut sim = Sim::new(&cfg);
        let ticket = sim.admitted(ctx);
        sim.sample_and_plan(ticket).0.tier
    };
    assert_eq!(tier(OpContext::data(FsOp::Read, 1, 0, 1024)), Tier::Base);
    assert_eq!(tier(OpContext::data(FsOp::Read, 1, 0, 1025)), Tier::Large);
    // A short tail read of a large request, and the reverse.
    assert_eq!(
        tier(OpContext::data(FsOp::Read, 1, 0, 500).with_requested_len(1 << 20)),
        Tier::Large
    );
    assert_eq!(
        tier(OpContext::data(FsOp::Read, 1, 0, 1 << 20).with_requested_len(500)),
        Tier::Base
    );
}

#[test]
fn size_tier_ignored_on_metadata_ops() {
    // Open with huge ctx.len must not route to the large tier even if
    // size_tier is set without validation.
    let mut policy = zero_latency_policy();
    policy.size_tier = Some(SizeTier {
        threshold_bytes: 1,
        large: LargeTierPolicy {
            latency: fixed_latency_profile(250_000),
            bandwidth: None,
            faults: vec![FaultRule {
                op: FsOp::Open,
                errno: libc::EIO,
                rate: number(1.0),
            }],
        },
    });
    let cfg = config_with(FsOp::Open, policy);
    let mut sim = Sim::new(&cfg);
    let ctx = OpContext::data(FsOp::Open, 1, 0, 1_000_000);
    sim.run_op(ctx, || Ok::<_, FsError>(())).unwrap();
    let elapsed = sim.now;
    assert!(
        elapsed < 50 * MILLI,
        "metadata op must use base policy, got {elapsed:?}"
    );
}

#[test]
fn size_tier_bandwidth_throttles_large_reads() {
    // Zero base latency. Large tier throttles at 1_000_000 B/s with a 100-byte
    // burst. Small read (50 bytes) stays within burst and is fast. Large
    // read (200_000 bytes) needs ~0.2s wait beyond burst.
    let mut policy = zero_latency_policy();
    policy.latency = fixed_latency_profile(0);
    policy.size_tier = Some(SizeTier {
        threshold_bytes: 1024,
        large: LargeTierPolicy {
            latency: fixed_latency_profile(0),
            bandwidth: Some(BandwidthProfile {
                bytes_per_sec: number(1_000_000.0),
                burst_bytes: 100,
            }),
            faults: Vec::new(),
        },
    });
    let cfg = config_with(FsOp::Read, policy);
    let mut sim = Sim::new(&cfg);

    sim.run_op(OpContext::data(FsOp::Read, 1, 0, 50), || {
        Ok::<_, FsError>(())
    })
    .unwrap();
    let small_elapsed = sim.now;
    assert!(
        small_elapsed < 50 * MILLI,
        "small read must bypass large-tier bandwidth, got {small_elapsed:?}"
    );

    let before = sim.now;
    sim.run_op(OpContext::data(FsOp::Read, 1, 0, 200_000), || {
        Ok::<_, FsError>(())
    })
    .unwrap();
    let large_elapsed = sim.now - before;
    assert!(
        large_elapsed >= 150 * MILLI,
        "large read must be throttled (>=150ms), got {large_elapsed:?}"
    );
    assert_eq!(sim.events[1].bandwidth_delay_us, 199_900);
}

#[test]
fn size_tier_faults_apply_above_threshold() {
    let mut policy = zero_latency_policy();
    policy.size_tier = Some(SizeTier {
        threshold_bytes: 1024,
        large: LargeTierPolicy {
            latency: fixed_latency_profile(0),
            bandwidth: None,
            faults: vec![FaultRule {
                op: FsOp::Read,
                errno: libc::EIO,
                rate: number(1.0),
            }],
        },
    });
    let cfg = config_with(FsOp::Read, policy);
    let mut sim = Sim::new(&cfg);

    // Small read (below threshold): no base fault, so Ok.
    let ok = sim
        .run_op(OpContext::data(FsOp::Read, 1, 0, 100), || {
            Ok::<u8, FsError>(42)
        })
        .unwrap();
    assert_eq!(ok, 42);

    // Large read (above threshold): large tier fires EIO.
    let err = sim
        .run_op(OpContext::data(FsOp::Read, 1, 0, 4096), || {
            Ok::<u8, FsError>(42)
        })
        .unwrap_err();
    match err {
        FsError::Errno(e) => assert_eq!(e, libc::EIO),
        other => panic!("expected EIO, got {other:?}"),
    }
}

#[test]
fn size_tier_uses_inherited_concurrency_cap() {
    // Single-slot limiter. A large-tier read that sleeps on latency must
    // block a second read (small or large) from acquiring the slot, proving
    // the limiter is shared across tiers.
    let mut policy = zero_latency_policy();
    policy.concurrency_cap = 1;
    policy.queue_cap = 4;
    policy.latency = fixed_latency_profile(0);
    policy.size_tier = Some(SizeTier {
        threshold_bytes: 1024,
        large: LargeTierPolicy {
            latency: fixed_latency_profile(150_000), // 150ms
            bandwidth: None,
            faults: Vec::new(),
        },
    });
    let cfg = config_with(FsOp::Read, policy);
    let mut sim = Sim::new(&cfg);

    let large = sim.admitted(OpContext::data(FsOp::Read, 1, 0, 10_000));
    let (_, large) = sim.sample_and_plan(large);
    assert_eq!(large.plan().sleep_nanos, 150 * MILLI);

    // The small read arrives 10 ms later.
    sim.now = 10 * MILLI;
    let small = match sim.begin(OpContext::data(FsOp::Read, 1, 0, 100)) {
        OpStart::Queued(queued) => queued,
        other => panic!("expected to queue, got {other:?}"),
    };
    assert_eq!(small.op(), FsOp::Read);
    let small = match sim.engine.wait_op(small, 20 * MILLI) {
        OpWait::Waiting(queued) => queued,
        other => panic!("expected to wait on, got {other:?}"),
    };

    sim.now = 150 * MILLI;
    sim.finish(large.run_body(|| Ok::<(), FsError>(())), 0).unwrap();
    assert!(sim.engine.has_room_for_wait(FsOp::Read, 140 * MILLI));
    let small = match sim.engine.wait_op(small, 140 * MILLI) {
        OpWait::Admitted(ticket) => ticket,
        other => panic!("expected admission, got {other:?}"),
    };
    let (_, small) = sim.sample_and_plan(small);
    assert_eq!(small.plan().sleep_nanos, 0);
    sim.finish(small.run_body(|| Ok::<(), FsError>(())), 10 * MILLI)
        .unwrap();
    let small_wait = sim.events[1].queue_wait_us;
    assert!(
        small_wait >= 80_000,
        "small read should have been blocked by the large-tier op holding the \
         single limiter slot (>=80ms), got {small_wait:?}"
    );
    assert_eq!(sim.events[1].total_duration_us, 140_000);
}

#[test]
fn faulted_ops_still_wait() {
    let mut policy = zero_latency_policy();
    policy.latency = fixed_latency_profile(7_000);
    policy.faults = vec![FaultRule {
        op: FsOp::Fsync,
        errno: libc::ENOSPC,
        rate: number(1.0),
    }];
    let cfg = config_with(FsOp::Fsync, policy);
    let mut sim = Sim::new(&cfg);
    let result = sim.run_op(OpContext::metadata(FsOp::Fsync, 1), || {
        Ok::<(), FsError>(())
    });
    assert_eq!(result, Err(FsError::Errno(libc::ENOSPC)));
    assert_eq!(sim.now, 7 * MILLI);
}

#[test]
fn ops_do_not_affect_one_another() {
    // A failing, saturated fsync leaves writes alone.
    let mut policy = zero_latency_policy();
    policy.concurrency_cap = 1;
    policy.queue_cap = 0;
    policy.faults = vec![FaultRule {
        op: FsOp::Fsync,
        errno: libc::ENOSPC,
        rate: number(1.0),
    }];
    let mut cfg = config_with(FsOp::Fsync, policy);
    cfg.ops.insert(FsOp::Write, zero_latency_policy());
    let mut sim = Sim::new(&cfg);
    let held = sim.admitted(OpContext::metadata(FsOp::Fsync, 1));
    assert!(matches!(
        sim.begin(OpContext::metadata(FsOp::Fsync, 1)),
        OpStart::Rejected(_, FsError::Errno(libc::EAGAIN))
    ));
    for _ in 0..3 {
        sim.run_op(OpContext::data(FsOp::Write, 1, 0, 16), || {
            Ok::<_, FsError>(16)
        })
        .unwrap();
    }
    let (sample, held) = sim.sample_and_plan(held);
    assert_eq!(sample.fault, Some(libc::ENOSPC));
    let done = held.run_body(|| -> Result<(), FsError> { panic!("a fault is injected") });
    assert_eq!(sim.finish(done, 0), Err(FsError::Errno(libc::ENOSPC)));
    let summary = sim.engine.metrics().summary();
    let write = summary.iter().find(|s| s.op == FsOp::Write).unwrap();
    let fsync = summary.iter().find(|s| s.op == FsOp::Fsync).unwrap();
    assert_eq!((write.count, write.errors), (3, 0));
    assert_eq!((fsync.count, fsync.errors), (2, 2));
}

#[test]
fn errors_of_the_body_are_passed_on() {
    let cfg = config_with(FsOp::Lookup, zero_latency_policy());
    let mut sim = Sim::new(&cfg);
    let result = sim.run_op(OpContext::metadata(FsOp::Lookup, 1), || {
        Err::<(), _>(FsError::Errno(libc::ENOENT))
    });
    assert_eq!(result, Err(FsError::Errno(libc::ENOENT)));
    assert_eq!(sim.events[0].errno, Some(libc::ENOENT));
    assert_eq!(sim.events[0].outcome, Outcome::Error);
}

#[test]
fn same_seed_same_events() {
    let run = |seed: u64| {
        let mut cfg = Config::default();
        cfg.seed = seed;
        let mut policy = OpPolicy::default();
        policy.faults = vec![FaultRule {
            op: FsOp::Read,
            errno: libc::EIO,
            rate: number(0.2),
        }];
        policy.latency.pareto_weight = number(0.1);
        cfg.ops.insert(FsOp::Read, policy);
        let mut sim = Sim::new(&cfg);
        for i in 0..200 {
            let _ = sim.run_op(OpContext::data(FsOp::Read, 100 + i % 7, i * 512, 512), || {
                Ok::<_, FsError>(())
            });
            let _ = sim.run_op(OpContext::metadata(FsOp::GetAttr, i), || {
                Ok::<_, FsError>(())
            });
        }
        sim.events
    };
    assert_eq!(run(7), run(7));
    assert_ne!(run(7), run(8));
}

#[test]
fn lengths_beyond_the_key_are_clamped() {
    let mut policy = zero_latency_policy();
    policy.latency.lognormal_median_us = number(100.0);
    policy.latency.lognormal_sigma = number(0.5);
    let cfg = config_with(FsOp::Write, policy);
    let sample = |len: usize| {
        let mut sim = Sim::new(&cfg);
        let ticket = sim.admitted(OpContext::data(FsOp::Write, 1, 0, len));
        sim.sample_and_plan(ticket).0.body
    };
    let most = u32::MAX as usize;
    assert_eq!(sample(most), sample(most + 1));
    assert_eq!(sample(most), sample(most + 12345));
    assert_ne!(sample(most), sample(most - 1));
}

#[test]
fn unconfigured_ops_use_the_default_policy() {
    let mut sim = Sim::new(&Config::default());
    let mut held = Vec::new();
    for _ in 0..64 {
        held.push(sim.admitted(OpContext::metadata(FsOp::Statfs, 1)));
    }
    // The queue has no room by default.
    match sim.begin(OpContext::metadata(FsOp::Statfs, 1)) {
        OpStart::Rejected(event, error) => {
            assert_eq!(error, FsError::Errno(libc::EAGAIN));
            assert_eq!(event.errno, Some(libc::EAGAIN));
            assert_eq!(event.seq, 64);
        }
        other => panic!("expected a rejection, got {other:?}"),
    }
    let (sample, _) = sim.sample_and_plan(held.swap_remove(0));
    assert_eq!(sample.profile, LatencyProfile::default());
    assert_eq!(sim.engine.seed(), 42);
}

#[test]
fn bandwidth_debt_adds_to_the_sleep() {
    let mut policy = zero_latency_policy();
    policy.latency = fixed_latency_profile(3_000);
    policy.bandwidth = Some(BandwidthProfile {
        bytes_per_sec: number(1_000.0),
        burst_bytes: 100,
    });
    let cfg = config_with(FsOp::Write, policy);
    let mut sim = Sim::new(&cfg);
    assert!(sim.engine.can_settle(FsOp::Write, Tier::Base));
    assert!(sim.engine.can_settle(FsOp::Write, Tier::Large));
    let ticket = sim.admitted(OpContext::data(FsOp::Write, 1, 0, 600));
    let (_, planned) = sim.sample_and_plan(ticket);
    assert_eq!(
        planned.plan(),
        OpPlan {
            latency_us: 3_000,
            bandwidth_nanos: 500 * MILLI,
            sleep_nanos: 503 * MILLI,
        }
    );
}

#[test]
fn contexts() {
    assert_eq!(
        OpContext::metadata(FsOp::Open, 9),
        OpContext {
            op: FsOp::Open,
            ino: 9,
            offset: 0,
            len: 0,
            requested_len: 0
        }
    );
    assert_eq!(
        OpContext::data(FsOp::Read, 9, 5, 10).with_requested_len(20),
        OpContext {
            op: FsOp::Read,
            ino: 9,
            offset: 5,
            len: 10,
            requested_len: 20
        }
    );
}

#[test]
fn abandoned_operations_give_their_slot_back() {
    let mut policy = zero_latency_policy();
    policy.concurrency_cap = 1;
    policy.queue_cap = 0;
    let cfg = config_with(FsOp::Read, policy);
    let mut sim = Sim::new(&cfg);
    let ctx = OpContext::data(FsOp::Read, 1, 0, 10);

    let ticket = sim.admitted(ctx);
    sim.engine.release_op(ticket.abandon());
    let ticket = sim.admitted(ctx);
    let (_, planned) = sim.sample_and_plan(ticket);
    sim.engine.release_op(planned.abandon());
    let ticket = sim.admitted(ctx);
    let (_, planned) = sim.sample_and_plan(ticket);
    let done = planned.run_body(|| Ok::<(), FsError>(()));
    sim.engine.release_op(done.abandon());
    // Nothing is recorded of them, and the slot is free.
    assert!(sim.engine.metrics().summary().is_empty());
    sim.run_op(ctx, || Ok::<(), FsError>(())).unwrap();
    assert_eq!(sim.events.len(), 1);
    assert_eq!(sim.events[0].seq, 3);
    assert_eq!(sim.engine.metrics().summary()[0].count, 1);
}

#[test]
fn bandwidth_is_settled_op_by_op() {
    let mut policy = zero_latency_policy();
    policy.bandwidth = Some(BandwidthProfile {
        bytes_per_sec: number(1_000.0),
        burst_bytes: 1_000,
    });
    let cfg = config_with(FsOp::Write, policy);
    let mut sim = Sim::new(&cfg);
    let first = sim.admitted(OpContext::data(FsOp::Write, 1, 0, 600));
    let second = sim.admitted(OpContext::data(FsOp::Write, 1, 0, 600));
    assert!(sim.engine.is_settled(FsOp::Write, Tier::Base));
    let sampled = sim.engine.sample_op(first, 0);
    assert!(!sim.engine.is_settled(FsOp::Write, Tier::Base));
    assert!(sim.engine.is_settled(FsOp::Write, Tier::Large));
    let settled = TokenOutcome {
        tokens: number(400.0),
        debt_nanos: 0,
    };
    let planned = sim.engine.plan_op(sampled, 0, Some(settled));
    assert_eq!(planned.plan().sleep_nanos, 0);
    assert!(sim.engine.is_settled(FsOp::Write, Tier::Base));
    let (_, planned) = sim.sample_and_plan(second);
    assert_eq!(planned.plan().bandwidth_nanos, 200 * MILLI);
}

#[test]
fn sleeps_can_exceed_the_longest_duration() {
    let mut policy = zero_latency_policy();
    policy.latency = fixed_latency_profile(0);
    policy.latency.max_us = u64::MAX;
    policy.bandwidth = Some(BandwidthProfile {
        bytes_per_sec: number(1e-300),
        burst_bytes: 1,
    });
    let cfg = config_with(FsOp::Write, policy);
    let mut sim = Sim::new(&cfg);
    let ticket = sim.admitted(OpContext::data(FsOp::Write, 1, 0, 600));
    let sampled = sim.engine.sample_op(ticket, 0);
    let settled = TokenOutcome {
        tokens: number(-599.0),
        debt_nanos: MAX_SLEEP_NANOS,
    };
    let planned = sim.engine.plan_op(sampled, 5, Some(settled));
    assert_eq!(planned.plan().sleep_nanos, MAX_SLEEP_NANOS + 5_000);
}

#[test]
fn every_call_has_one_event_and_one_sample() {
    let mut failing = zero_latency_policy();
    failing.faults = vec![FaultRule {
        op: FsOp::Fsync,
        errno: libc::ENOSPC,
        rate: number(0.5),
    }];
    let mut closed = zero_latency_policy();
    closed.concurrency_cap = 0;
    let mut cfg = config_with(FsOp::Fsync, failing);
    cfg.ops.insert(FsOp::Open, closed);
    let mut sim = Sim::new(&cfg);
    for i in 0..120u64 {
        let op = FsOp::ALL[(i % 11) as usize];
        let result = sim.run_op(OpContext::metadata(op, i), || match i % 5 {
            0 => Err(FsError::Errno(libc::ENOENT)),
            _ => Ok(i),
        });
        let event = sim.events[i as usize];
        assert_eq!(sim.events.len() as u64, i + 1);
        assert_eq!((event.seq, event.op, event.ino), (i, op, i));
        assert_eq!(event.errno, result.as_ref().err().map(FsError::as_errno));
        assert_eq!(event.outcome == Outcome::Error, result.is_err());
        if op == FsOp::Open {
            assert_eq!(result, Err(FsError::Errno(libc::EAGAIN)));
        }
        let counted: u64 = sim.engine.metrics().summary().iter().map(|s| s.count).sum();
        assert_eq!(counted, i + 1);
    }
}

#[test]
fn an_absent_kind_has_the_standard_policy() {
    let run = |cfg: &Config| {
        let mut sim = Sim::new(cfg);
        let mut results = Vec::new();
        for i in 0..100 {
            results.push(sim.run_op(OpContext::data(FsOp::Read, i, 0, 64), || Ok::<_, FsError>(i)));
            results.push(sim.run_op(OpContext::metadata(FsOp::Lookup, i), || Ok::<_, FsError>(i)));
        }
        (results, sim.events, sim.engine.seed())
    };
    let mut cfg = Config::default();
    cfg.seed = 99;
    cfg.ops.insert(FsOp::Lookup, zero_latency_policy());
    let mut explicit = Config::default();
    explicit.seed = 99;
    explicit.ops.insert(FsOp::Lookup, zero_latency_policy());
    explicit.ops.insert(FsOp::Read, OpPolicy::default());
    assert!(SimEngine::new(&cfg, 0).metrics().summary().is_empty());
    assert_eq!(run(&cfg), run(&explicit));
}
