//! Counters and histograms.

use fusecraft::metrics::{HistogramRecorder, OpSummary, HIST_HIGH, HIST_LOW};
use fusecraft::op::FsOp;

#[test]
fn summary_empty_when_no_records() {
    let r = HistogramRecorder::new();
    assert!(r.summary().is_empty());
}

#[test]
fn records_ok_and_error_separately() {
    let mut r = HistogramRecorder::new();
    r.record(FsOp::Read, 100, false);
    r.record(FsOp::Read, 200, false);
    r.record(FsOp::Read, 300, true);

    let s = &r.summary()[0];
    assert_eq!(s.op, FsOp::Read);
    assert_eq!(s.count, 3);
    assert_eq!(s.errors, 1);
}

#[test]
fn summary_skips_ops_without_records() {
    let mut r = HistogramRecorder::new();
    r.record(FsOp::Read, 100, false);
    let summary = r.summary();
    assert_eq!(summary.len(), 1);
    assert_eq!(summary[0].op, FsOp::Read);
}

#[test]
fn summary_ordered_by_fsop_all() {
    let mut r = HistogramRecorder::new();
    // Record out of FsOp::ALL order on purpose.
    r.record(FsOp::Write, 500, false);
    r.record(FsOp::Read, 100, false);
    r.record(FsOp::Open, 10, false);

    let ops: Vec<_> = r.summary().into_iter().map(|s| s.op).collect();
    // The first of these in FsOp::ALL is Open, then Read, then Write.
    assert_eq!(ops, vec![FsOp::Open, FsOp::Read, FsOp::Write]);
}

#[test]
fn percentiles_are_reasonable() {
    let mut r = HistogramRecorder::new();
    for i in 1..=1000 {
        r.record(FsOp::Read, i, false);
    }
    let s = &r.summary()[0];
    assert!(s.p50_us >= 450 && s.p50_us <= 550);
    assert!(s.p95_us >= 900 && s.p95_us <= 1000);
    assert!(s.p99_us >= 950 && s.p99_us <= 1010);
}

#[test]
fn clamps_values_outside_range() {
    let mut r = HistogramRecorder::new();
    r.record(FsOp::Read, 0, false);
    r.record(FsOp::Read, HIST_HIGH * 10, false);
    let s = &r.summary()[0];
    // Min should be 1 after clamping; max should be close to HIST_HIGH.
    assert!(s.p50_us >= HIST_LOW);
    assert!(s.p999_us <= HIST_HIGH + (HIST_HIGH / 1000));
}

#[test]
fn records_multiple_ops_independently() {
    let mut r = HistogramRecorder::new();
    r.record(FsOp::Read, 100, false);
    r.record(FsOp::Write, 500, false);
    let summary = r.summary();
    assert_eq!(summary.len(), 2);
    let read = summary.iter().find(|s| s.op == FsOp::Read).unwrap();
    let write = summary.iter().find(|s| s.op == FsOp::Write).unwrap();
    assert!(read.p50_us < write.p50_us);
}

#[test]
fn percentiles_of_a_known_set() {
    let mut r = HistogramRecorder::default();
    for i in 1..=1000 {
        r.record(FsOp::Fsync, i, i % 10 == 0);
    }
    // Values up to 2047 are kept exactly.
    assert_eq!(
        r.summary(),
        vec![OpSummary {
            op: FsOp::Fsync,
            count: 1000,
            errors: 100,
            p50_us: 500,
            p95_us: 950,
            p99_us: 990,
            // The rank is worked out in binary, a little above 999, and rounded up.
            p999_us: 1000,
        }]
    );
}

#[test]
fn percentiles_agree_with_the_histogram_crate() {
    let mut r = HistogramRecorder::new();
    let mut h = hdrhistogram::Histogram::<u64>::new_with_bounds(1, 60_000_000, 3).unwrap();
    let mut x: u64 = 12345;
    for _ in 0..5000 {
        x = x.wrapping_mul(6_364_136_223_846_793_005).wrapping_add(1);
        let us = x >> 36;
        r.record(FsOp::Write, us, false);
        h.record(us.clamp(1, 60_000_000)).unwrap();
    }
    let s = r.summary()[0];
    assert_eq!(s.p50_us, h.value_at_percentile(50.0));
    assert_eq!(s.p95_us, h.value_at_percentile(95.0));
    assert_eq!(s.p99_us, h.value_at_percentile(99.0));
    assert_eq!(s.p999_us, h.value_at_percentile(99.9));
}

#[test]
fn single_values_are_reported_within_precision() {
    for us in [1, 7, 999, 1000, 2047, 2048, 123_456, 59_999_999, 60_000_000] {
        let mut r = HistogramRecorder::new();
        r.record(FsOp::Open, us, false);
        let s = r.summary()[0];
        for p in [s.p50_us, s.p95_us, s.p99_us, s.p999_us] {
            assert!(p >= us && p <= us + us / 1000, "{us} was reported as {p}");
        }
    }
}

#[test]
fn summary_line_text() {
    let mut r = HistogramRecorder::new();
    r.record(FsOp::GetAttr, 10, false);
    r.record(FsOp::GetAttr, 10, true);
    assert!(r.can_record(FsOp::GetAttr));
    assert_eq!(
        r.summary()[0].line(),
        "op=getattr count=2 p50_us=10 p95_us=10 p99_us=10 p999_us=10 errors=1"
    );
}

#[test]
fn percentiles_split_what_was_recorded() {
    let mut r = HistogramRecorder::new();
    let mut recorded = Vec::new();
    let mut x: u64 = 12_345;
    for _ in 0..777 {
        x = x.wrapping_mul(6_364_136_223_846_793_005).wrapping_add(1);
        let us = 1 + (x >> 33) % 50_000_000;
        recorded.push(us);
        r.record(FsOp::Fsync, us, us % 3 == 0);
        let s = r.summary()[0];
        let n = recorded.len();
        for (value, part) in [(s.p50_us, 500), (s.p95_us, 950), (s.p99_us, 990), (s.p999_us, 999)] {
            let reached = recorded.iter().filter(|&&v| v <= value).count();
            let below = recorded.iter().filter(|&&v| v + v / 1000 < value).count();
            assert!(part * n <= 1000 * reached, "{part} of {n}: {reached}");
            assert!(1000 * below <= part * n, "{part} of {n}: {below}");
        }
        assert!(s.p50_us <= s.p95_us && s.p95_us <= s.p99_us && s.p99_us <= s.p999_us);
    }
}

#[test]
fn durations_out_of_range_are_saturated() {
    for (handed, saturated) in [(0, HIST_LOW), (u64::MAX, HIST_HIGH), (HIST_HIGH + 1, HIST_HIGH)] {
        let mut a = HistogramRecorder::new();
        let mut b = HistogramRecorder::new();
        for r in [&mut a, &mut b] {
            r.record(FsOp::Read, 77, false);
            r.record(FsOp::Open, 5, true);
        }
        a.record(FsOp::Read, handed, true);
        b.record(FsOp::Read, saturated, true);
        assert_eq!(a.summary(), b.summary());
        assert_eq!(a.summary()[1].count, 2);
    }
}
