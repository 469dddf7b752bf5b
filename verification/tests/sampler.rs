//! Deterministic sampling.

use rand::rngs::StdRng;
use rand::{Rng, SeedableRng};

use fusecraft::binary64::Binary64;
use fusecraft::config::{FaultRule, LatencyProfile};
use fusecraft::op::FsOp;
use fusecraft::sampler::key::{fault_words, latency_words, mix, FAULT_STREAM, LATENCY_STREAM};
use fusecraft::sampler::{
    clamp_latency_us, draw_of, pick_body, pick_fault, sample_fault, sample_latency, LatencyDraw,
    SampleKey,
};

fn number(value: f64) -> Binary64 {
    Binary64::from_bits(value.to_bits())
}

fn uniform(draw: u64) -> f64 {
    draw as f64 / (1u64 << 53) as f64
}

/// Evaluate the body of a latency.
fn evaluate(body: LatencyDraw) -> f64 {
    let value = |x: Binary64| f64::from_bits(x.bits);
    match body {
        LatencyDraw::Constant(us) => value(us),
        LatencyDraw::Lognormal {
            median,
            sigma,
            u1,
            u2,
        } => {
            let z = (-2.0 * uniform(u1).max(f64::MIN_POSITIVE).ln()).sqrt()
                * (2.0 * std::f64::consts::PI * uniform(u2)).cos();
            (value(median).ln() + value(sigma) * z).exp()
        }
        LatencyDraw::Pareto { xm, alpha, u } => {
            value(xm) / uniform(u).max(f64::MIN_POSITIVE).powf(1.0 / value(alpha))
        }
    }
}

fn sample_latency_us(profile: &LatencyProfile, key: SampleKey) -> u64 {
    let total = profile.base_us as f64 + evaluate(sample_latency(profile, key));
    let rounded = total.min(profile.max_us as f64).max(0.0).round() as u64;
    clamp_latency_us(profile, rounded)
}

/// The latency formula, drawn straight from the generator.
fn direct_latency_us(profile: &LatencyProfile, key: SampleKey) -> u64 {
    let value = |x: Binary64| f64::from_bits(x.bits);
    let mut rng = StdRng::seed_from_u64(mix(key, LATENCY_STREAM));
    let lognormal = |rng: &mut StdRng| {
        let median = value(profile.lognormal_median_us);
        let sigma = value(profile.lognormal_sigma);
        if median <= 0.0 || sigma <= 0.0 {
            return median.max(0.0);
        }
        let u1: f64 = rng.random::<f64>().max(f64::MIN_POSITIVE);
        let u2: f64 = rng.random::<f64>();
        let z = (-2.0 * u1.ln()).sqrt() * (2.0 * std::f64::consts::PI * u2).cos();
        (median.ln() + sigma * z).exp()
    };
    let body = if value(profile.pareto_weight) > 0.0 {
        let u: f64 = rng.random();
        if u < value(profile.pareto_weight) {
            let u: f64 = rng.random::<f64>().max(f64::MIN_POSITIVE);
            value(profile.pareto_xm_us) / u.powf(1.0 / value(profile.pareto_alpha))
        } else {
            lognormal(&mut rng)
        }
    } else {
        lognormal(&mut rng)
    };
    let total = profile.base_us as f64 + body;
    let rounded = total.min(profile.max_us as f64).max(0.0).round() as u64;
    rounded.min(profile.max_us)
}

/// The fault rules, tried straight against the generator.
fn direct_fault(rules: &[FaultRule], key: SampleKey) -> Option<i32> {
    let mut rng = StdRng::seed_from_u64(mix(key, FAULT_STREAM));
    for rule in rules.iter().filter(|r| r.op == key.op) {
        let u: f64 = rng.random();
        if u < f64::from_bits(rule.rate.bits) {
            return Some(rule.errno);
        }
    }
    None
}

fn base_key() -> SampleKey {
    SampleKey {
        seed: 42,
        op: FsOp::Read,
        ino: 1,
        offset: 0,
        len: 4096,
        seq: 0,
    }
}

fn mk_key(op: FsOp, seq: u64) -> SampleKey {
    SampleKey {
        op,
        seq,
        ..base_key()
    }
}

// --- Keys ---

#[test]
fn same_key_same_rng() {
    let key = base_key();
    assert_eq!(latency_words(key, 10), latency_words(key, 10));
}

#[test]
fn different_seq_different_rng() {
    let k1 = SampleKey {
        seq: 0,
        ..base_key()
    };
    let k2 = SampleKey {
        seq: 1,
        ..base_key()
    };
    assert_ne!(latency_words(k1, 1), latency_words(k2, 1));
}

#[test]
fn latency_and_fault_streams_differ() {
    let key = base_key();
    assert_ne!(latency_words(key, 1), fault_words(key, 1));
}

#[test]
fn different_ops_differ() {
    let k1 = SampleKey {
        op: FsOp::Read,
        ..base_key()
    };
    let k2 = SampleKey {
        op: FsOp::Write,
        ..base_key()
    };
    assert_ne!(latency_words(k1, 1), latency_words(k2, 1));
}

#[test]
fn words_are_those_of_the_generator() {
    let key = base_key();
    let mut latency = StdRng::seed_from_u64(mix(key, LATENCY_STREAM));
    let mut fault = StdRng::seed_from_u64(mix(key, FAULT_STREAM));
    for word in latency_words(key, 20) {
        assert_eq!(word, latency.random::<u64>());
    }
    for word in fault_words(key, 20) {
        assert_eq!(word, fault.random::<u64>());
    }
    assert!(latency_words(key, 0).is_empty());
}

#[test]
fn draws_are_those_of_the_generator() {
    let key = base_key();
    let mut rng = StdRng::seed_from_u64(mix(key, FAULT_STREAM));
    for word in fault_words(key, 100) {
        assert_eq!(uniform(draw_of(word)), rng.random::<f64>());
    }
}

#[test]
fn mix_follows_its_formula() {
    let key = SampleKey {
        seed: 0x0123_4567_89ab_cdef,
        op: FsOp::Access,
        ino: 77,
        offset: 1 << 33,
        len: u32::MAX,
        seq: u64::MAX,
    };
    let mut z = key.seed
        ^ 10u64.rotate_left(11)
        ^ key.ino.rotate_left(23)
        ^ key.offset.rotate_left(37)
        ^ (key.len as u64).rotate_left(47)
        ^ key.seq.rotate_left(53)
        ^ LATENCY_STREAM;
    z = (z ^ (z >> 30)).wrapping_mul(0xbf58_476d_1ce4_e5b9);
    z = (z ^ (z >> 27)).wrapping_mul(0x94d0_49bb_1331_11eb);
    assert_eq!(mix(key, LATENCY_STREAM), z ^ (z >> 31));
}

#[test]
fn every_field_changes_the_seed() {
    let key = base_key();
    let others = [
        SampleKey { seed: 43, ..key },
        SampleKey {
            op: FsOp::Fsync,
            ..key
        },
        SampleKey { ino: 2, ..key },
        SampleKey { offset: 1, ..key },
        SampleKey { len: 4097, ..key },
        SampleKey { seq: 1, ..key },
    ];
    for other in others {
        assert_ne!(mix(key, FAULT_STREAM), mix(other, FAULT_STREAM));
    }
}

// --- Faults ---

fn make_rules() -> Vec<FaultRule> {
    vec![
        FaultRule {
            op: FsOp::Read,
            errno: libc::EIO,
            rate: number(0.5),
        },
        FaultRule {
            op: FsOp::Write,
            errno: libc::ENOSPC,
            rate: number(1.0),
        },
        FaultRule {
            op: FsOp::Read,
            errno: libc::EAGAIN,
            rate: number(0.1),
        },
    ]
}

#[test]
fn fault_sampling_is_deterministic() {
    let rules = make_rules();
    let key = mk_key(FsOp::Read, 7);
    assert_eq!(sample_fault(&rules, key), sample_fault(&rules, key));
}

#[test]
fn one_fault_rate_always_faults() {
    let rules = vec![FaultRule {
        op: FsOp::Write,
        errno: libc::ENOSPC,
        rate: number(1.0),
    }];
    for seq in 0..1000 {
        assert_eq!(
            sample_fault(&rules, mk_key(FsOp::Write, seq)),
            Some(libc::ENOSPC)
        );
    }
}

#[test]
fn zero_fault_rate_never_faults() {
    let rules = vec![FaultRule {
        op: FsOp::Read,
        errno: libc::EIO,
        rate: number(0.0),
    }];
    for seq in 0..1000 {
        assert_eq!(sample_fault(&rules, mk_key(FsOp::Read, seq)), None);
    }
}

#[test]
fn fault_respects_op_filter() {
    // Rule targets Read, but key.op is Write: should never fire.
    let rules = vec![FaultRule {
        op: FsOp::Read,
        errno: libc::EIO,
        rate: number(1.0),
    }];
    for seq in 0..100 {
        assert_eq!(sample_fault(&rules, mk_key(FsOp::Write, seq)), None);
    }
}

#[test]
fn no_rules_passes() {
    assert_eq!(sample_fault(&[], mk_key(FsOp::Read, 0)), None);
}

#[test]
fn first_matching_rule_wins() {
    // Two rules for Read, both rate 1.0. First should always win.
    let rules = vec![
        FaultRule {
            op: FsOp::Read,
            errno: libc::EIO,
            rate: number(1.0),
        },
        FaultRule {
            op: FsOp::Read,
            errno: libc::EAGAIN,
            rate: number(1.0),
        },
    ];
    for seq in 0..100 {
        assert_eq!(
            sample_fault(&rules, mk_key(FsOp::Read, seq)),
            Some(libc::EIO)
        );
    }
}

#[test]
fn statistical_rate() {
    let rules = vec![FaultRule {
        op: FsOp::Read,
        errno: libc::EIO,
        rate: number(0.3),
    }];

    let n = 10_000u64;
    let failures = (0..n)
        .filter(|&seq| sample_fault(&rules, mk_key(FsOp::Read, seq)).is_some())
        .count();

    let observed_rate = failures as f64 / n as f64;
    assert!(
        (0.25..=0.35).contains(&observed_rate),
        "observed rate {observed_rate} not in [0.25, 0.35]"
    );
}

#[test]
fn faults_agree_with_the_generator() {
    let rules = make_rules();
    for op in [FsOp::Read, FsOp::Write, FsOp::Fsync] {
        for seq in 0..500 {
            let key = mk_key(op, seq);
            assert_eq!(sample_fault(&rules, key), direct_fault(&rules, key));
        }
    }
}

#[test]
fn rules_of_other_ops_use_up_no_draw() {
    let with = make_rules();
    let without = vec![with[0], with[2]];
    for seq in 0..200 {
        let key = mk_key(FsOp::Read, seq);
        assert_eq!(sample_fault(&with, key), sample_fault(&without, key));
    }
}

#[test]
fn given_words_select_the_fault() {
    let half = 1u64 << 63;
    let rules = make_rules();
    // A draw of exactly one half is not below one half; 0.5 is not below 0.1.
    assert_eq!(
        pick_fault(&rules, FsOp::Read, &vec![half, half, half]),
        None
    );
    assert_eq!(
        pick_fault(&rules, FsOp::Read, &vec![half - 2048, half, half]),
        Some(libc::EIO)
    );
    // The second matching rule goes by the second word.
    assert_eq!(
        pick_fault(&rules, FsOp::Read, &vec![half, 0, half]),
        Some(libc::EAGAIN)
    );
    assert_eq!(
        pick_fault(&rules, FsOp::Write, &vec![u64::MAX, 0, 0]),
        Some(libc::ENOSPC)
    );
}

#[test]
fn extreme_rates_against_draws() {
    let fires = |word: u64, rate: f64| {
        let rules = [FaultRule {
            op: FsOp::Read,
            errno: 1,
            rate: number(rate),
        }];
        pick_fault(&rules, FsOp::Read, &vec![word]).is_some()
    };
    let smallest = 2048;
    for rate in [
        f64::NAN,
        f64::INFINITY,
        f64::NEG_INFINITY,
        -1.0,
        -0.0,
        0.0,
        f64::MIN_POSITIVE / 2.0,
        f64::MIN_POSITIVE,
        1e-300,
        2.0f64.powi(-54),
        2.0f64.powi(-53),
        1.5 * 2.0f64.powi(-53),
        2.0f64.powi(-52),
        0.1,
        0.999_999_999,
        1.0 - f64::EPSILON / 2.0,
        1.0,
        1.5,
        f64::MAX,
    ] {
        for word in [
            0,
            1,
            smallest - 1,
            smallest,
            2 * smallest,
            3 * smallest,
            u64::MAX / 3,
            u64::MAX - smallest,
            u64::MAX,
        ] {
            let u = (word >> 11) as f64 / (1u64 << 53) as f64;
            assert_eq!(fires(word, rate), u < rate, "word {word} rate {rate}");
        }
    }
}

// --- Latencies ---

#[test]
fn latency_sampling_is_deterministic() {
    let profile = LatencyProfile::default();
    let key = mk_key(FsOp::Read, 7);
    assert_eq!(
        sample_latency_us(&profile, key),
        sample_latency_us(&profile, key)
    );
}

#[test]
fn latency_sampling_respects_max() {
    let profile = LatencyProfile {
        max_us: 100,
        base_us: 0,
        ..LatencyProfile::default()
    };
    for seq in 0..10_000 {
        let key = SampleKey {
            seed: 1,
            op: FsOp::Read,
            ino: 0,
            offset: 0,
            len: 0,
            seq,
        };
        assert!(sample_latency_us(&profile, key) <= 100);
    }
}

#[test]
fn latency_sampling_respects_base() {
    // With lognormal_median=0, pareto_weight=0, sigma=0: result == base_us.
    let profile = LatencyProfile {
        base_us: 250,
        lognormal_median_us: number(0.0),
        lognormal_sigma: number(0.0),
        pareto_weight: number(0.0),
        pareto_xm_us: number(1000.0),
        pareto_alpha: number(1.5),
        max_us: 1_000_000,
    };

    for seq in 0..100 {
        let us = sample_latency_us(&profile, mk_key(FsOp::Read, seq));
        assert_eq!(us, 250);
    }
}

#[test]
fn different_ops_get_different_streams() {
    let profile = LatencyProfile::default();
    let mk = |op| SampleKey {
        seed: 1,
        op,
        ino: 1,
        offset: 0,
        len: 0,
        seq: 0,
    };
    // Run 100 pairs and check not ALL equal.
    let pairs_equal: Vec<bool> = (0..100)
        .map(|seq| {
            let read_key = SampleKey {
                seq,
                ..mk(FsOp::Read)
            };
            let write_key = SampleKey {
                seq,
                ..mk(FsOp::Write)
            };
            sample_latency_us(&profile, read_key) == sample_latency_us(&profile, write_key)
        })
        .collect();
    assert!(
        pairs_equal.iter().any(|&eq| !eq),
        "different ops should produce different streams"
    );
}

#[test]
fn pareto_tail_fires() {
    let profile = LatencyProfile {
        base_us: 0,
        lognormal_median_us: number(1.0),
        lognormal_sigma: number(0.01),
        pareto_weight: number(1.0),
        pareto_xm_us: number(1000.0),
        pareto_alpha: number(1.5),
        max_us: 10_000_000,
    };

    let samples: Vec<u64> = (0..100)
        .map(|seq| sample_latency_us(&profile, mk_key(FsOp::Read, seq)))
        .collect();
    let above_xm = samples.iter().filter(|&&s| s >= 1000).count();
    assert!(
        above_xm > 90,
        "expected most samples >= 1000, got {above_xm}/100"
    );
}

#[test]
fn lognormal_distribution_reasonable() {
    let profile = LatencyProfile {
        base_us: 0,
        lognormal_median_us: number(100.0),
        lognormal_sigma: number(0.5),
        pareto_weight: number(0.0),
        pareto_xm_us: number(1000.0),
        pareto_alpha: number(1.5),
        max_us: 1_000_000,
    };

    let mut samples: Vec<u64> = (0..10_000)
        .map(|seq| sample_latency_us(&profile, mk_key(FsOp::Read, seq)))
        .collect();
    samples.sort();
    let median = samples[samples.len() / 2];
    // Median of lognormal(ln(100), 0.5) should be ~100.
    assert!(
        (50..200).contains(&median),
        "median {median} not in expected range 50..200"
    );
}

#[test]
fn latencies_agree_with_the_generator() {
    let mut profile = LatencyProfile::default();
    for weight in [0.0, 0.05, 0.5, 1.0] {
        profile.pareto_weight = number(weight);
        for seq in 0..500 {
            let key = mk_key(FsOp::Write, seq);
            assert_eq!(
                sample_latency_us(&profile, key),
                direct_latency_us(&profile, key)
            );
        }
    }
}

#[test]
fn given_words_select_the_body() {
    let words = vec![0, 2048 * 5, 2048 * 9];
    let mut profile = LatencyProfile::default();
    assert_eq!(
        pick_body(&profile, &words),
        LatencyDraw::Lognormal {
            median: number(100.0),
            sigma: number(0.5),
            u1: 0,
            u2: 5
        }
    );
    profile.pareto_weight = number(0.5);
    assert_eq!(
        pick_body(&profile, &words),
        LatencyDraw::Pareto {
            xm: number(1000.0),
            alpha: number(1.5),
            u: 5
        }
    );
    let late = vec![1 << 63, 2048 * 5, 2048 * 9];
    assert_eq!(
        pick_body(&profile, &late),
        LatencyDraw::Lognormal {
            median: number(100.0),
            sigma: number(0.5),
            u1: 5,
            u2: 9
        }
    );
    profile.lognormal_sigma = number(0.0);
    assert_eq!(
        pick_body(&profile, &late),
        LatencyDraw::Constant(number(100.0))
    );
    profile.lognormal_median_us = number(-3.0);
    assert_eq!(pick_body(&profile, &late), LatencyDraw::Constant(number(0.0)));
}

#[test]
fn latency_clamp() {
    let profile = LatencyProfile {
        max_us: 100,
        ..LatencyProfile::default()
    };
    assert_eq!(clamp_latency_us(&profile, 99), 99);
    assert_eq!(clamp_latency_us(&profile, 100), 100);
    assert_eq!(clamp_latency_us(&profile, u64::MAX), 100);
}

#[test]
fn latency_and_fault_independent() {
    // Changing fault rules should not affect latency output (different streams).
    let profile = LatencyProfile::default();
    let key = SampleKey {
        seed: 7,
        op: FsOp::Read,
        ino: 1,
        offset: 0,
        len: 0,
        seq: 99,
    };

    let lat = sample_latency_us(&profile, key);

    // Calling fault with the same key should not change the latency result.
    let rules = vec![FaultRule {
        op: FsOp::Read,
        errno: libc::EIO,
        rate: number(1.0),
    }];
    let _fault = sample_fault(&rules, key);
    let lat_again = sample_latency_us(&profile, key);

    assert_eq!(lat, lat_again);
}

#[test]
fn different_seeds_different_results() {
    let profile = LatencyProfile::default();
    let k1 = SampleKey {
        seed: 1,
        op: FsOp::Read,
        ino: 1,
        offset: 0,
        len: 0,
        seq: 0,
    };
    let k2 = SampleKey { seed: 2, ..k1 };
    // Very unlikely to be equal with different seeds.
    let results: Vec<bool> = (0..50)
        .map(|seq| {
            sample_latency_us(&profile, SampleKey { seq, ..k1 })
                == sample_latency_us(&profile, SampleKey { seq, ..k2 })
        })
        .collect();
    // At least some should differ.
    assert!(results.iter().any(|&eq| !eq));
}
