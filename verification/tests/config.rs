//! Configuration defaults and validation.

use fusecraft::binary64::Binary64;
use fusecraft::config::{
    errno_name, parse_errno, BandwidthProfile, Config, ConfigIssue, FaultRule, LargeTierPolicy,
    LatencyField, LatencyIssue, LatencyProfile, OpPolicy, RootLayout, SizeTier, Tier, WriteMode,
};
use fusecraft::error::FsError;
use fusecraft::op::FsOp;

fn number(value: f64) -> Binary64 {
    Binary64::from_bits(value.to_bits())
}

/// The error that a refused configuration is reported with.
fn refusal(cfg: &Config) -> FsError {
    let issue = cfg.validate().unwrap_err();
    let shown = match issue.value() {
        Some(value) => f64::from_bits(value.bits).to_string(),
        None => String::new(),
    };
    issue.to_error(&shown)
}

fn text(cfg: &Config) -> String {
    match refusal(cfg) {
        FsError::Config(msg) => msg,
        other => panic!("expected Config error, got: {other:?}"),
    }
}

fn with_policy(op: FsOp, policy: OpPolicy) -> Config {
    let mut cfg = Config::default();
    cfg.ops.insert(op, policy);
    cfg
}

fn with_latency(op: FsOp, latency: LatencyProfile) -> Config {
    with_policy(
        op,
        OpPolicy {
            latency,
            ..OpPolicy::default()
        },
    )
}

#[test]
fn parse_errno_bogus_returns_config_error() {
    let result = parse_errno("BOGUS");
    assert!(result.is_err());
    match result.unwrap_err() {
        FsError::Config(msg) => assert!(msg.contains("unknown errno")),
        other => panic!("expected FsError::Config, got: {other:?}"),
    }
}

#[test]
fn parse_errno_known_values() {
    assert_eq!(parse_errno("EIO").unwrap(), libc::EIO);
    assert_eq!(parse_errno("ENOENT").unwrap(), libc::ENOENT);
    assert_eq!(parse_errno("ESTALE").unwrap(), libc::ESTALE);
    assert_eq!(parse_errno("ENOSPC").unwrap(), libc::ENOSPC);
    assert_eq!(parse_errno("EAGAIN").unwrap(), libc::EAGAIN);
    assert_eq!(parse_errno("EINTR").unwrap(), libc::EINTR);
}

#[test]
fn errno_names_parse_back() {
    for errno in [
        libc::EIO,
        libc::ENOENT,
        libc::ESTALE,
        libc::ENOSPC,
        libc::EAGAIN,
        libc::EINTR,
    ] {
        assert_eq!(parse_errno(errno_name(errno).unwrap()).unwrap(), errno);
    }
    assert_eq!(errno_name(libc::EPERM), None);
    assert_eq!(
        parse_errno("eio").unwrap_err(),
        FsError::Config("unknown errno: eio".to_string())
    );
}

#[test]
fn validate_rejects_zero_inode_count() {
    let mut cfg = Config::default();
    cfg.files.inode_count = 0;
    match refusal(&cfg) {
        FsError::Config(msg) => assert!(msg.contains("inode_count")),
        other => panic!("expected Config error, got: {other:?}"),
    }
    assert_eq!(text(&cfg), "files.inode_count must be > 0");
}

#[test]
fn validate_rejects_zero_file_size_bytes() {
    let mut cfg = Config::default();
    cfg.files.file_size_bytes = 0;
    match refusal(&cfg) {
        FsError::Config(msg) => assert!(msg.contains("file_size_bytes")),
        other => panic!("expected Config error, got: {other:?}"),
    }
    assert_eq!(text(&cfg), "files.file_size_bytes must be > 0");
}

#[test]
fn validate_rejects_zero_concurrency_cap() {
    let cfg = with_policy(
        FsOp::Read,
        OpPolicy {
            concurrency_cap: 0,
            ..OpPolicy::default()
        },
    );
    match refusal(&cfg) {
        FsError::Config(msg) => assert!(msg.contains("concurrency_cap")),
        other => panic!("expected Config error, got: {other:?}"),
    }
    assert_eq!(text(&cfg), "ops.read.concurrency_cap must be > 0");
}

#[test]
fn validate_rejects_max_us_less_than_base_us() {
    let cfg = with_latency(
        FsOp::Write,
        LatencyProfile {
            base_us: 1000,
            max_us: 500,
            ..LatencyProfile::default()
        },
    );
    match refusal(&cfg) {
        FsError::Config(msg) => assert!(msg.contains("max_us")),
        other => panic!("expected Config error, got: {other:?}"),
    }
    assert_eq!(
        text(&cfg),
        "ops.write.latency.max_us (500) must be >= base_us (1000)"
    );
}

#[test]
fn validate_rejects_fault_rate_above_one() {
    let cfg = with_policy(
        FsOp::Read,
        OpPolicy {
            faults: vec![FaultRule {
                op: FsOp::Read,
                errno: libc::EIO,
                rate: number(1.5),
            }],
            ..OpPolicy::default()
        },
    );
    match refusal(&cfg) {
        FsError::Config(msg) => assert!(msg.contains("rate")),
        other => panic!("expected Config error, got: {other:?}"),
    }
    assert_eq!(
        text(&cfg),
        "ops.read.faults[0].rate must be a finite value in [0.0, 1.0], got 1.5"
    );
}

#[test]
fn validate_rejects_pareto_weight_above_one() {
    let cfg = with_latency(
        FsOp::Fsync,
        LatencyProfile {
            pareto_weight: number(1.5),
            ..LatencyProfile::default()
        },
    );
    match refusal(&cfg) {
        FsError::Config(msg) => assert!(msg.contains("pareto_weight")),
        other => panic!("expected Config error, got: {other:?}"),
    }
    assert_eq!(
        text(&cfg),
        "ops.fsync.latency.pareto_weight must be in [0.0, 1.0], got 1.5"
    );
}

#[test]
fn default_config_validates() {
    Config::default()
        .validate()
        .expect("default config is valid");
}

#[test]
fn validate_rejects_values_that_are_not_finite() {
    let fields: [(LatencyField, fn(&mut LatencyProfile, Binary64)); 5] = [
        (LatencyField::LognormalMedianUs, |p, v| {
            p.lognormal_median_us = v
        }),
        (LatencyField::LognormalSigma, |p, v| p.lognormal_sigma = v),
        (LatencyField::ParetoWeight, |p, v| p.pareto_weight = v),
        (LatencyField::ParetoXmUs, |p, v| p.pareto_xm_us = v),
        (LatencyField::ParetoAlpha, |p, v| p.pareto_alpha = v),
    ];
    for (field, set) in fields {
        for bad in [f64::NAN, f64::INFINITY, f64::NEG_INFINITY] {
            let mut latency = LatencyProfile::default();
            set(&mut latency, number(bad));
            let cfg = with_latency(FsOp::Lookup, latency);
            assert_eq!(
                cfg.validate(),
                Err(ConfigIssue::Latency {
                    op: FsOp::Lookup,
                    tier: Tier::Base,
                    issue: LatencyIssue::NotFinite {
                        field,
                        value: number(bad)
                    },
                })
            );
            assert_eq!(
                text(&cfg),
                format!(
                    "ops.lookup.latency.{} must be finite, got {bad}",
                    field.as_str()
                )
            );
        }
    }
}

#[test]
fn validate_rejects_negative_latency_parameters() {
    let negative = |latency| text(&with_latency(FsOp::Open, latency));
    assert_eq!(
        negative(LatencyProfile {
            pareto_weight: number(-0.5),
            ..LatencyProfile::default()
        }),
        "ops.open.latency.pareto_weight must be in [0.0, 1.0], got -0.5"
    );
    assert_eq!(
        negative(LatencyProfile {
            pareto_weight: number(0.5),
            pareto_alpha: number(0.0),
            ..LatencyProfile::default()
        }),
        "ops.open.latency.pareto_alpha must be > 0.0 when pareto_weight > 0"
    );
    assert_eq!(
        negative(LatencyProfile {
            lognormal_median_us: number(-1.0),
            ..LatencyProfile::default()
        }),
        "ops.open.latency.lognormal_median_us must be >= 0.0"
    );
    assert_eq!(
        negative(LatencyProfile {
            lognormal_sigma: number(-f64::MIN_POSITIVE),
            ..LatencyProfile::default()
        }),
        "ops.open.latency.lognormal_sigma must be >= 0.0"
    );
}

#[test]
fn validate_accepts_the_ends_of_ranges() {
    let cfg = with_latency(
        FsOp::Open,
        LatencyProfile {
            base_us: 7,
            max_us: 7,
            lognormal_median_us: number(-0.0),
            lognormal_sigma: number(0.0),
            pareto_weight: number(1.0),
            pareto_xm_us: number(-4.0),
            pareto_alpha: number(f64::MIN_POSITIVE / 4.0),
        },
    );
    assert_eq!(cfg.validate(), Ok(()));
    // The shape does not matter while the tail is not in use.
    let cfg = with_latency(
        FsOp::Open,
        LatencyProfile {
            pareto_alpha: number(-1.0),
            ..LatencyProfile::default()
        },
    );
    assert_eq!(cfg.validate(), Ok(()));
    for rate in [0.0, -0.0, 1.0] {
        let cfg = with_policy(
            FsOp::Read,
            OpPolicy {
                faults: vec![FaultRule {
                    op: FsOp::Read,
                    errno: libc::EIO,
                    rate: number(rate),
                }],
                ..OpPolicy::default()
            },
        );
        assert_eq!(cfg.validate(), Ok(()));
    }
}

#[test]
fn validate_names_the_first_bad_rate() {
    let rule = |rate: f64| FaultRule {
        op: FsOp::Read,
        errno: libc::EIO,
        rate: number(rate),
    };
    for bad in [f64::NAN, f64::INFINITY, -0.1, 1.0 + f64::EPSILON] {
        let cfg = with_policy(
            FsOp::Read,
            OpPolicy {
                faults: vec![rule(0.5), rule(bad), rule(7.0)],
                ..OpPolicy::default()
            },
        );
        assert_eq!(
            cfg.validate(),
            Err(ConfigIssue::FaultRate {
                op: FsOp::Read,
                tier: Tier::Base,
                index: 1,
                rate: number(bad),
            })
        );
    }
}

fn tiered(threshold_bytes: u64, large: LargeTierPolicy) -> OpPolicy {
    OpPolicy {
        size_tier: Some(SizeTier {
            threshold_bytes,
            large,
        }),
        ..OpPolicy::default()
    }
}

#[test]
fn validate_checks_the_size_tier() {
    assert_eq!(
        with_policy(FsOp::Read, tiered(1, LargeTierPolicy::default())).validate(),
        Ok(())
    );
    assert_eq!(
        text(&with_policy(
            FsOp::Open,
            tiered(1, LargeTierPolicy::default())
        )),
        "ops.open.size_tier is only valid on Read or Write ops, not open"
    );
    assert_eq!(
        text(&with_policy(
            FsOp::Write,
            tiered(0, LargeTierPolicy::default())
        )),
        "ops.write.size_tier.threshold_bytes must be > 0 (a zero threshold is equivalent to not \
         setting size_tier at all — configure the base policy directly instead)"
    );
    assert_eq!(
        text(&with_policy(
            FsOp::Write,
            tiered(
                1,
                LargeTierPolicy {
                    latency: LatencyProfile {
                        lognormal_sigma: number(f64::NAN),
                        ..LatencyProfile::default()
                    },
                    ..LargeTierPolicy::default()
                }
            )
        )),
        "ops.write.size_tier.large.latency.lognormal_sigma must be finite, got NaN"
    );
    assert_eq!(
        text(&with_policy(
            FsOp::Read,
            tiered(
                1,
                LargeTierPolicy {
                    faults: vec![FaultRule {
                        op: FsOp::Read,
                        errno: libc::EIO,
                        rate: number(2.0),
                    }],
                    ..LargeTierPolicy::default()
                }
            )
        )),
        "ops.read.size_tier.large.faults[0].rate must be a finite value in [0.0, 1.0], got 2"
    );
}

#[test]
fn validate_rejects_bandwidths_that_are_not_finite() {
    let endless = Some(BandwidthProfile {
        bytes_per_sec: number(f64::INFINITY),
        burst_bytes: 1,
    });
    let cfg = with_policy(
        FsOp::Read,
        OpPolicy {
            bandwidth: endless,
            ..OpPolicy::default()
        },
    );
    assert_eq!(
        text(&cfg),
        "ops.read.bandwidth.bytes_per_sec must be finite, got inf"
    );
    let cfg = with_policy(
        FsOp::Read,
        tiered(
            1,
            LargeTierPolicy {
                bandwidth: endless,
                ..LargeTierPolicy::default()
            },
        ),
    );
    assert_eq!(
        text(&cfg),
        "ops.read.size_tier.large.bandwidth.bytes_per_sec must be finite, got inf"
    );
}

#[test]
fn issues_are_found_in_order() {
    let mut cfg = with_latency(
        FsOp::Access,
        LatencyProfile {
            base_us: 2,
            max_us: 1,
            ..LatencyProfile::default()
        },
    );
    cfg.ops.insert(
        FsOp::GetAttr,
        OpPolicy {
            concurrency_cap: 0,
            ..OpPolicy::default()
        },
    );
    assert_eq!(
        cfg.validate(),
        Err(ConfigIssue::ConcurrencyCapZero { op: FsOp::GetAttr })
    );
}

#[test]
fn defaults() {
    let cfg = Config::default();
    assert_eq!(cfg.seed, 42);
    assert_eq!(cfg.mount.fs_name, "fusecraft");
    assert_eq!(cfg.mount.subtype, "sim");
    assert!(cfg.mount.auto_unmount && cfg.mount.default_permissions);
    assert!(!cfg.mount.read_only && !cfg.mount.direct_io);
    assert_eq!(cfg.files.inode_count, 1000);
    assert_eq!(cfg.files.file_size_bytes, 65536);
    assert_eq!(cfg.files.root_layout, RootLayout::Flat);
    assert_eq!(cfg.files.write_mode, WriteMode::Discard);
    assert!(cfg.ops.is_empty());
    assert!(cfg.metrics.jsonl_path.is_none());

    let policy = OpPolicy::default();
    assert_eq!(policy.concurrency_cap, 64);
    assert_eq!(policy.queue_cap, 0);
    assert!(policy.bandwidth.is_none() && policy.faults.is_empty() && policy.size_tier.is_none());
    let latency = policy.latency;
    assert_eq!(latency.base_us, 0);
    assert_eq!(latency.lognormal_median_us, number(100.0));
    assert_eq!(latency.lognormal_sigma, number(0.5));
    assert_eq!(latency.pareto_weight, number(0.0));
    assert_eq!(latency.pareto_xm_us, number(1000.0));
    assert_eq!(latency.pareto_alpha, number(1.5));
    assert_eq!(latency.max_us, 1_000_000);
}

#[test]
fn policies_are_kept_by_op() {
    let mut cfg = Config::default();
    for (i, op) in FsOp::ALL.into_iter().enumerate() {
        assert!(cfg.ops.get(op).is_none());
        cfg.ops.insert(
            op,
            OpPolicy {
                queue_cap: i,
                ..OpPolicy::default()
            },
        );
        assert!(!cfg.ops.is_empty());
    }
    let copy = cfg.clone();
    for (i, op) in FsOp::ALL.into_iter().enumerate() {
        assert_eq!(copy.ops.get(op).unwrap().queue_cap, i);
    }
    cfg.ops.insert(FsOp::Read, OpPolicy::default());
    assert_eq!(cfg.ops.get(FsOp::Read).unwrap().queue_cap, 0);
    assert_eq!(cfg.ops.get(FsOp::Write).unwrap().queue_cap, 4);
}

#[test]
fn comparisons_agree_with_the_machine() {
    for x in [
        f64::NAN,
        -f64::NAN,
        f64::INFINITY,
        f64::NEG_INFINITY,
        0.0,
        -0.0,
        5e-324,
        -5e-324,
        1.0,
        -1.0,
        1.0 + f64::EPSILON,
        1.0 - f64::EPSILON / 2.0,
        f64::MAX,
        f64::MIN,
    ] {
        let b = number(x);
        assert_eq!(b.is_finite(), x.is_finite(), "{x}");
        assert_eq!(b.lt_zero(), x < 0.0, "{x}");
        assert_eq!(b.le_zero(), x <= 0.0, "{x}");
        assert_eq!(b.gt_zero(), x > 0.0, "{x}");
        assert_eq!(b.ge_zero(), x >= 0.0, "{x}");
        assert_eq!(b.gt_one(), x > 1.0, "{x}");
    }
}
