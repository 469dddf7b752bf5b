//! Per-operation counters and latency histograms.
//!
//! Durations are kept in microseconds, in a range of 1 microsecond to 60
//! seconds, to three significant figures.

use hdrhistogram::Histogram;
use vstd::multiset::Multiset;
use vstd::prelude::*;

use crate::op::{all_lists_every_op_once, FsOp, OP_COUNT};
use crate::text::{decimal, push_decimal};

verus! {

/// Histogram lower bound in microseconds.
pub const HIST_LOW: u64 = 1;

/// Histogram upper bound in microseconds (60 seconds).
pub const HIST_HIGH: u64 = 60_000_000;

/// Histogram significant figures.
pub const HIST_SIGFIG: u8 = 3;

/// A histogram of durations, kept by `hdrhistogram`.
#[verifier::external_body]
#[derive(Debug)]
pub struct DurationHistogram {
    inner: Histogram<u64>,
}

/// The values recorded in a histogram.
pub uninterp spec fn recorded(histogram: DurationHistogram) -> Multiset<u64>;

/// The lowest and the highest value that a histogram was made for, and its
/// number of significant figures.
pub uninterp spec fn layout(histogram: DurationHistogram) -> (u64, u64, u8);

/// The value at a percentile, given as decimal text, of the values in a
/// histogram of the given layout.
pub uninterp spec fn percentile_value(
    layout: (u64, u64, u8),
    values: Multiset<u64>,
    percent: Seq<char>,
) -> u64;

/// Whether `value`, read from a histogram of three significant figures from one
/// up that is not empty, is a recorded value or exceeds one by at most one
/// part in a thousand.
pub open spec fn near_some(value: u64, layout: (u64, u64, u8), values: Multiset<u64>) -> bool {
    layout.0 == 1 && layout.2 == 3 && values.len() > 0 ==> exists|v: u64| #[trigger]
        values.count(v) > 0 && v <= value <= v + v / 1000
}

/// The largest number of values for which the rank of a percentile is worked
/// out without an error that shows.
pub const RANK_LIMIT: u64 = 1_000_000_000_000;

/// A percentile that summaries hold, given as decimal text, in parts of a
/// thousand.
pub open spec fn permille(percent: Seq<char>) -> nat {
    if percent == "50"@ {
        500
    } else if percent == "95"@ {
        950
    } else if percent == "99"@ {
        990
    } else {
        999
    }
}

/// Whether `value` stands where `part` thousandths of the values lie below: at
/// least that many are at most `value`, and at most that many are below it by
/// more than one part in a thousand.
pub open spec fn splits(value: u64, values: Multiset<u64>, part: nat) -> bool {
    &&& part * values.len() <= 1000 * values.filter(|v: u64| v <= value).len()
    &&& 1000 * values.filter(|v: u64| v + v / 1000 < value).len() <= part * values.len()
}

/// Whether `value`, read from a histogram of three significant figures from one
/// up, splits the recorded values at a percentile.
pub open spec fn at_rank(
    value: u64,
    layout: (u64, u64, u8),
    values: Multiset<u64>,
    percent: Seq<char>,
) -> bool {
    layout.0 == 1 && layout.2 == 3 && values.len() <= RANK_LIMIT ==> splits(
        value,
        values,
        permille(percent),
    )
}

/// Whether `percent` is one of the percentiles that summaries hold.
pub open spec fn summarized(percent: Seq<char>) -> bool {
    percent == "50"@ || percent == "95"@ || percent == "99"@ || percent == "99.9"@
}

proof fn lemma_percentiles()
    ensures
        permille("50"@) == 500,
        permille("95"@) == 950,
        permille("99"@) == 990,
        permille("99.9"@) == 999,
{
    reveal_strlit("50");
    reveal_strlit("95");
    reveal_strlit("99");
    reveal_strlit("99.9");
    assert("95"@[0] != "50"@[0]);
    assert("99"@[0] != "50"@[0]);
    assert("99"@[1] != "95"@[1]);
    assert("99.9"@.len() == 4);
}

/// `hdrhistogram`'s `Histogram::new_with_bounds`.
///
/// Claimed: it succeeds on these bounds, and the histogram is empty.
#[verifier::external_body]
fn open_histogram(low: u64, high: u64, sigfig: u8) -> (histogram: DurationHistogram)
    requires
        low == 1,
        2 <= high,
        sigfig <= 5,
    ensures
        recorded(histogram) == Multiset::<u64>::empty(),
        layout(histogram) == (low, high, sigfig),
{
    DurationHistogram { inner: Histogram::new_with_bounds(low, high, sigfig).unwrap() }
}

/// `hdrhistogram`'s `Histogram::record`.
///
/// Claimed: a value up to the upper bound is recorded, once.
#[verifier::external_body]
fn record_value(histogram: &mut DurationHistogram, value: u64)
    requires
        value <= layout(*old(histogram)).1,
        recorded(*old(histogram)).len() < u64::MAX,
    ensures
        recorded(*final(histogram)) == recorded(*old(histogram)).insert(value),
        layout(*final(histogram)) == layout(*old(histogram)),
{
    let _ = histogram.inner.record(value);
}

/// `hdrhistogram`'s `Histogram::value_at_percentile`, with the percentile given
/// as decimal text.
///
/// Claimed: the result depends on the layout, the recorded values and the
/// percentile alone, and a larger percentile has no smaller value. At three
/// significant figures from one up it is the highest value that counts as equal
/// to some recorded value, which exceeds that value by at most one part in a
/// thousand. The given percentage of the recorded values are smaller than or
/// count as equal to it, and no more than that percentage are smaller and do not
/// count as equal; the rank is a `f64` product, which is off by less than one
/// part in a thousand of a value up to [`RANK_LIMIT`] values. Beyond that the
/// rank is left unsaid. Of a histogram that reaches up to the largest number
/// nothing is said, as the highest value that counts as equal to that number
/// falls short of it.
#[verifier::external_body]
fn value_at(histogram: &DurationHistogram, percent: &str) -> (value: u64)
    requires
        summarized(percent@),
        layout(*histogram).1 < u64::MAX,
        recorded(*histogram).len() <= u64::MAX,
    ensures
        value == percentile_value(layout(*histogram), recorded(*histogram), percent@),
        near_some(value, layout(*histogram), recorded(*histogram)),
        at_rank(value, layout(*histogram), recorded(*histogram), percent@),
        forall|lower: Seq<char>|
            summarized(lower) && permille(lower) <= permille(percent@)
                ==> #[trigger] percentile_value(layout(*histogram), recorded(*histogram), lower)
                <= value,
{
    histogram.inner.value_at_percentile(percent.parse().unwrap())
}

/// Per-operation state: two counters and a latency histogram.
#[derive(Debug)]
pub struct OpHisto {
    /// Number of successful completions recorded.
    pub count_ok: u64,
    /// Number of error completions recorded.
    pub count_err: u64,
    /// Histogram of total-duration microseconds across ok and error outcomes.
    pub histo: DurationHistogram,
}

/// Summary snapshot for one op.
#[derive(Copy, Clone, Debug, PartialEq, Eq, Structural)]
pub struct OpSummary {
    /// The operation.
    pub op: FsOp,
    /// How many of it were recorded.
    pub count: u64,
    /// How many of those were errors.
    pub errors: u64,
    /// The median duration.
    pub p50_us: u64,
    /// The 95th percentile of the durations.
    pub p95_us: u64,
    /// The 99th percentile of the durations.
    pub p99_us: u64,
    /// The 99.9th percentile of the durations.
    pub p999_us: u64,
}

/// Per-op histogram recorder.
#[derive(Debug)]
pub struct HistogramRecorder {
    per_op: [Option<OpHisto>; 11],
}

/// What was recorded for one operation.
#[verifier::ext_equal]
pub struct Tally {
    /// How many completions were successful.
    pub successes: nat,
    /// How many completions were errors.
    pub errors: nat,
    /// Their durations, within the bounds of the histogram.
    pub durations: Multiset<u64>,
}

impl Tally {
    /// Nothing recorded.
    pub open spec fn none() -> Tally {
        Tally { successes: 0, errors: 0, durations: Multiset::empty() }
    }

    /// How many completions were recorded.
    pub open spec fn total(self) -> nat {
        self.successes + self.errors
    }

    /// With one more completion.
    pub open spec fn with(self, duration_us: u64, is_error: bool) -> Tally {
        Tally {
            successes: self.successes + if is_error {
                0nat
            } else {
                1nat
            },
            errors: self.errors + if is_error {
                1nat
            } else {
                0nat
            },
            durations: self.durations.insert(within_bounds(duration_us)),
        }
    }

    /// There is one duration for each completion, and each is within bounds.
    pub open spec fn consistent(self) -> bool {
        &&& self.durations.len() == self.total()
        &&& self.total() <= u64::MAX
        &&& forall|v: u64| #[trigger]
            self.durations.count(v) > 0 ==> HIST_LOW <= v <= HIST_HIGH
    }

    /// The value at a percentile of the durations.
    pub open spec fn percentile(self, percent: Seq<char>) -> u64 {
        percentile_value((HIST_LOW, HIST_HIGH, HIST_SIGFIG), self.durations, percent)
    }

    /// The summary of what was recorded for `op`.
    pub open spec fn summary(self, op: FsOp) -> OpSummary {
        OpSummary {
            op,
            count: self.total() as u64,
            errors: self.errors as u64,
            p50_us: self.percentile("50"@),
            p95_us: self.percentile("95"@),
            p99_us: self.percentile("99"@),
            p999_us: self.percentile("99.9"@),
        }
    }
}

/// A duration, moved into the bounds of the histogram.
pub open spec fn within_bounds(duration_us: u64) -> u64 {
    if duration_us < HIST_LOW {
        HIST_LOW
    } else if duration_us > HIST_HIGH {
        HIST_HIGH
    } else {
        duration_us
    }
}

impl View for OpHisto {
    type V = Tally;

    open spec fn view(&self) -> Tally {
        Tally {
            successes: self.count_ok as nat,
            errors: self.count_err as nat,
            durations: recorded(self.histo),
        }
    }
}

impl OpHisto {
    /// Counters and histogram agree.
    pub open spec fn wf(self) -> bool {
        self@.consistent() && layout(self.histo) == (HIST_LOW, HIST_HIGH, HIST_SIGFIG)
    }
}

/// The summaries of the operations from position `from` of [`FsOp::ALL`] on of
/// which anything was recorded.
pub open spec fn summaries(tallies: spec_fn(FsOp) -> Tally, from: int) -> Seq<OpSummary>
    decreases OP_COUNT - from,
{
    if from >= OP_COUNT {
        Seq::empty()
    } else {
        let op = FsOp::at(from);
        if tallies(op).total() == 0 {
            summaries(tallies, from + 1)
        } else {
            seq![tallies(op).summary(op)] + summaries(tallies, from + 1)
        }
    }
}

/// The completions in a list of summaries.
pub open spec fn counted(listed: Seq<OpSummary>) -> nat
    decreases listed.len(),
{
    if listed.len() == 0 {
        0
    } else {
        listed[0].count as nat + counted(listed.drop_first())
    }
}

/// The completions of the operations from position `from` of [`FsOp::ALL`] on.
pub open spec fn totals_from(tallies: spec_fn(FsOp) -> Tally, from: int) -> nat
    decreases OP_COUNT - from,
{
    if from >= OP_COUNT {
        0
    } else {
        tallies(FsOp::at(from)).total() + totals_from(tallies, from + 1)
    }
}

/// No completion is missing from the summaries, and none is in them twice.
pub proof fn counts_add_up(tallies: spec_fn(FsOp) -> Tally, from: int)
    requires
        forall|op: FsOp| (#[trigger] tallies(op)).total() <= u64::MAX,
    ensures
        counted(summaries(tallies, from)) == totals_from(tallies, from),
    decreases OP_COUNT - from,
{
    if from < OP_COUNT {
        counts_add_up(tallies, from + 1);
        let op = FsOp::at(from);
        assert(tallies(op).total() <= u64::MAX);
        let rest = summaries(tallies, from + 1);
        let with_op = seq![tallies(op).summary(op)] + rest;
        assert(with_op.drop_first() =~= rest);
    }
}

/// A duration out of range is counted as the nearest one in range: two recorders
/// with the same history, of which one is handed the duration as it is and the
/// other the saturated one, have the same summary.
pub proof fn durations_are_saturated(
    a: spec_fn(FsOp) -> Tally,
    b: spec_fn(FsOp) -> Tally,
    op: FsOp,
    duration_us: u64,
    is_error: bool,
)
    requires
        forall|other: FsOp| #[trigger] a(other) == b(other),
    ensures
        ({
            let in_a = |other: FsOp|
                if other == op {
                    a(other).with(duration_us, is_error)
                } else {
                    a(other)
                };
            let in_b = |other: FsOp|
                if other == op {
                    b(other).with(within_bounds(duration_us), is_error)
                } else {
                    b(other)
                };
            summaries(in_a, 0) == summaries(in_b, 0)
        }),
{
    let in_a = |other: FsOp|
        if other == op {
            a(other).with(duration_us, is_error)
        } else {
            a(other)
        };
    let in_b = |other: FsOp|
        if other == op {
            b(other).with(within_bounds(duration_us), is_error)
        } else {
            b(other)
        };
    assert(in_a =~= in_b);
}

impl HistogramRecorder {
    /// What was recorded for `op`.
    pub closed spec fn tally(self, op: FsOp) -> Tally {
        match self.per_op@[op.position()] {
            Some(entry) => entry@,
            None => Tally::none(),
        }
    }

    /// What was recorded, by operation.
    pub open spec fn tallies(self) -> spec_fn(FsOp) -> Tally {
        |op: FsOp| self.tally(op)
    }

    /// Counters and histograms agree.
    pub closed spec fn wf(self) -> bool {
        forall|i: int|
            0 <= i < OP_COUNT && (#[trigger] self.per_op@[i]) is Some ==> self.per_op@[i]->0.wf()
    }

    /// Of each operation there is one duration for each completion, and each is
    /// within bounds.
    pub proof fn tallies_are_consistent(self, op: FsOp)
        requires
            self.wf(),
        ensures
            self.tally(op).consistent(),
    {
        all_lists_every_op_once(op, 0);
        assert(self.per_op@[op.position()] matches Some(held) ==> held.wf());
    }

    /// Create an empty recorder.
    pub fn new() -> (recorder: Self)
        ensures
            recorder.wf(),
            forall|op: FsOp| recorder.tally(op) == Tally::none(),
    {
        HistogramRecorder {
            per_op: [None, None, None, None, None, None, None, None, None, None, None],
        }
    }

    /// Whether the counters of `op` can count one more completion.
    pub fn can_record(&self, op: FsOp) -> (room: bool)
        requires
            self.wf(),
        ensures
            room == (self.tally(op).total() < u64::MAX),
    {
        let i: usize = op.index();
        match &self.per_op[i] {
            Some(entry) => {
                assert(self.per_op@[i as int] matches Some(held) ==> held.wf());
                entry.count_ok < u64::MAX - entry.count_err
            },
            None => true,
        }
    }

    /// Record a single op outcome.
    ///
    /// `duration_us` is clamped to the histogram's range before recording, so
    /// values outside `[1, 60_000_000]` are saturated silently.
    pub fn record(&mut self, op: FsOp, duration_us: u64, is_error: bool)
        requires
            old(self).wf(),
            old(self).tally(op).total() < u64::MAX,
        ensures
            final(self).wf(),
            final(self).tally(op) == old(self).tally(op).with(duration_us, is_error),
            forall|other: FsOp| other != op ==> final(self).tally(other) == old(self).tally(other),
    {
        let i: usize = op.index();
        let clamped: u64 = if duration_us < HIST_LOW {
            HIST_LOW
        } else if duration_us > HIST_HIGH {
            HIST_HIGH
        } else {
            duration_us
        };
        if self.per_op[i].is_none() {
            let entry = OpHisto {
                count_ok: 0,
                count_err: 0,
                histo: open_histogram(HIST_LOW, HIST_HIGH, HIST_SIGFIG),
            };
            self.per_op[i] = Some(entry);
        }
        assert(self.per_op@[i as int] matches Some(held) && held.wf());
        if let Some(entry) = &mut self.per_op[i] {
            if is_error {
                entry.count_err = entry.count_err + 1;
            } else {
                entry.count_ok = entry.count_ok + 1;
            }
            record_value(&mut entry.histo, clamped);
        }
        proof {
            assert forall|other: FsOp| other != op implies self.tally(other) == old(self).tally(
                other,
            ) by {
                all_lists_every_op_once(other, op.position());
            }
        }
    }

    /// Produce summaries for each recorded op, in [`FsOp::ALL`] order.
    pub fn summary(&self) -> (listed: Vec<OpSummary>)
        requires
            self.wf(),
        ensures
            listed@ == summaries(self.tallies(), 0),
            forall|i: int|
                0 <= i < listed@.len() ==> {
                    &&& (#[trigger] listed@[i]).plausible()
                    &&& listed@[i].splits_at_percentiles(self.tally(listed@[i].op))
                },
    {
        let mut listed: Vec<OpSummary> = Vec::new();
        let mut i: usize = 0;
        while i < OP_COUNT
            invariant
                i <= OP_COUNT,
                self.wf(),
                listed@ + summaries(self.tallies(), i as int) == summaries(self.tallies(), 0),
                forall|j: int|
                    0 <= j < listed@.len() ==> {
                        &&& (#[trigger] listed@[j]).plausible()
                        &&& listed@[j].splits_at_percentiles(self.tally(listed@[j].op))
                    },
            decreases OP_COUNT - i,
        {
            let op = FsOp::ALL[i];
            let ghost before = listed@;
            proof {
                all_lists_every_op_once(op, i as int);
                assert(FsOp::at(i as int) == op);
                assert(self.per_op@[i as int] matches Some(held) ==> held.wf());
                lemma_percentiles();
            }
            if let Some(entry) = &self.per_op[i] {
                let count: u64 = entry.count_ok + entry.count_err;
                if count > 0 {
                    let line = OpSummary {
                        op,
                        count,
                        errors: entry.count_err,
                        p50_us: value_at(&entry.histo, "50"),
                        p95_us: value_at(&entry.histo, "95"),
                        p99_us: value_at(&entry.histo, "99"),
                        p999_us: value_at(&entry.histo, "99.9"),
                    };
                    listed.push(line);
                    proof {
                        assert(line == self.tally(op).summary(op));
                        assert(before + (seq![line] + summaries(self.tallies(), i + 1))
                            =~= listed@ + summaries(self.tallies(), i + 1));
                    }
                }
            }
            i = i + 1;
        }
        assert(listed@ + Seq::<OpSummary>::empty() =~= listed@);
        listed
    }
}

impl OpSummary {
    /// There are no more errors than completions, and the percentiles ascend
    /// within the bounds of the histogram, up to its precision.
    pub open spec fn plausible(self) -> bool {
        &&& self.count > 0
        &&& self.errors <= self.count
        &&& HIST_LOW <= self.p50_us <= self.p95_us <= self.p99_us <= self.p999_us <= HIST_HIGH
            + HIST_HIGH / 1000
    }

    /// The percentiles split the recorded durations as they should, if there
    /// are not more than [`RANK_LIMIT`].
    pub open spec fn splits_at_percentiles(self, tally: Tally) -> bool {
        tally.total() <= RANK_LIMIT ==> {
            &&& splits(self.p50_us, tally.durations, 500)
            &&& splits(self.p95_us, tally.durations, 950)
            &&& splits(self.p99_us, tally.durations, 990)
            &&& splits(self.p999_us, tally.durations, 999)
        }
    }

    /// The summary as a line of text.
    pub fn line(&self) -> (text: String)
        ensures
            text@ == "op="@ + self.op.name() + " count="@ + decimal(self.count as nat)
                + " p50_us="@ + decimal(self.p50_us as nat) + " p95_us="@ + decimal(
                self.p95_us as nat,
            ) + " p99_us="@ + decimal(self.p99_us as nat) + " p999_us="@ + decimal(
                self.p999_us as nat,
            ) + " errors="@ + decimal(self.errors as nat),
    {
        let mut out = String::new();
        out.append("op=");
        out.append(self.op.as_str());
        out.append(" count=");
        push_decimal(&mut out, self.count);
        out.append(" p50_us=");
        push_decimal(&mut out, self.p50_us);
        out.append(" p95_us=");
        push_decimal(&mut out, self.p95_us);
        out.append(" p99_us=");
        push_decimal(&mut out, self.p99_us);
        out.append(" p999_us=");
        push_decimal(&mut out, self.p999_us);
        out.append(" errors=");
        push_decimal(&mut out, self.errors);
        out
    }
}

impl Default for HistogramRecorder {
    fn default() -> (recorder: Self)
        ensures
            recorder.wf(),
            forall|op: FsOp| recorder.tally(op) == Tally::none(),
    {
        HistogramRecorder::new()
    }
}

// --- Laws ---

/// Recording a completion adds its own duration, moved to between one
/// microsecond and 60 seconds, to the recorded ones, and counts it as an error or
/// as a success.
pub proof fn recording_adds_the_duration(tally: Tally, duration_us: u64, is_error: bool)
    ensures
        ({
            let next = tally.with(duration_us, is_error);
            let kept = if duration_us < 1 {
                1u64
            } else if duration_us > 60_000_000 {
                60_000_000u64
            } else {
                duration_us
            };
            &&& next.durations == tally.durations.insert(kept)
            &&& next.errors - tally.errors == if is_error {
                1int
            } else {
                0int
            }
            &&& next.successes - tally.successes == if is_error {
                0int
            } else {
                1int
            }
            &&& next.total() == tally.total() + 1
        }),
        Tally::none().durations == Multiset::<u64>::empty(),
        Tally::none().errors == 0,
        Tally::none().successes == 0,
{
}

/// Every operation of which anything was recorded has exactly one summary, with
/// its own counts and percentiles, and the summaries are in the order of
/// [`FsOp::ALL`].
pub proof fn every_recorded_op_has_one_summary(
    tallies: spec_fn(FsOp) -> Tally,
    from: int,
    op: FsOp,
)
    requires
        0 <= from <= OP_COUNT,
        forall|other: FsOp| (#[trigger] tallies(other)).total() <= u64::MAX,
    ensures
        ({
            let listed = summaries(tallies, from);
            &&& (op.position() >= from && tallies(op).successes + tallies(op).errors > 0)
                <==> exists|i: int| 0 <= i < listed.len() && (#[trigger] listed[i]).op == op
            &&& forall|i: int|
                0 <= i < listed.len() ==> {
                    let tally = tallies((#[trigger] listed[i]).op);
                    &&& listed[i].count == tally.successes + tally.errors
                    &&& listed[i].errors == tally.errors
                    &&& listed[i].p50_us == percentile_value((1, 60_000_000, 3), tally.durations, "50"@)
                    &&& listed[i].p95_us == percentile_value((1, 60_000_000, 3), tally.durations, "95"@)
                    &&& listed[i].p99_us == percentile_value((1, 60_000_000, 3), tally.durations, "99"@)
                    &&& listed[i].p999_us == percentile_value(
                        (1, 60_000_000, 3),
                        tally.durations,
                        "99.9"@,
                    )
                    &&& listed[i].op.position() >= from
                }
            &&& forall|i: int, j: int|
                0 <= i < j < listed.len() ==> (#[trigger] listed[i]).op.position() < (
                #[trigger] listed[j]).op.position()
        }),
    decreases OP_COUNT - from,
{
    all_lists_every_op_once(op, 0);
    let listed = summaries(tallies, from);
    if from < OP_COUNT {
        every_recorded_op_has_one_summary(tallies, from + 1, op);
        all_lists_every_op_once(op, from);
        let here = FsOp::at(from);
        let rest = summaries(tallies, from + 1);
        assert(tallies(here).total() <= u64::MAX);
        let shift = if tallies(here).total() == 0 {
            0int
        } else {
            1int
        };
        assert(shift == 1 ==> listed[0] == tallies(here).summary(here));
        assert forall|i: int| shift <= i < listed.len() implies #[trigger] listed[i] == rest[i
            - shift] by {}
        if exists|i: int| 0 <= i < rest.len() && (#[trigger] rest[i]).op == op {
            let i = choose|i: int| 0 <= i < rest.len() && (#[trigger] rest[i]).op == op;
            assert(listed[i + shift].op == op);
        }
        if shift == 1 && here == op {
            assert(listed[0].op == op);
        }
        if exists|i: int| 0 <= i < listed.len() && (#[trigger] listed[i]).op == op {
            let i = choose|i: int| 0 <= i < listed.len() && (#[trigger] listed[i]).op == op;
            if i >= shift {
                assert(rest[i - shift].op == op);
            }
        }
    }
}

} // verus!
