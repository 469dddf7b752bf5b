//! What the turns of all callers of a concurrency limiter add up to.
//!
//! Callers take turns with the limiter: they ask for a slot, report from the
//! queue, and give slots back, in any order.

use vstd::prelude::*;

use crate::limiter::concurrency::{LimiterModel, Progress, WaitEvent};

verus! {

/// What a caller does in its turn.
pub enum Turn {
    /// It asks for a slot.
    Ask,
    /// It has a place in the queue, and reports.
    Report(WaitEvent),
    /// It holds a slot, and gives it back.
    GiveBack,
}

/// A limiter, and what its callers hold.
pub struct Round {
    /// The limiter.
    pub limiter: LimiterModel,
    /// For every guard that was handed out, how long its holder waited.
    pub waits: Seq<u128>,
    /// How many guards were given back.
    pub given_back: nat,
    /// How many callers have a place in the queue.
    pub waiting: nat,
    /// How many callers were turned away.
    pub turned_away: nat,
    /// How many callers have asked.
    pub asked: nat,
}

impl Round {
    /// Before the first turn.
    pub open spec fn start(cap: nat, queue_cap: nat) -> Round {
        Round {
            limiter: LimiterModel::fresh(cap, queue_cap),
            waits: Seq::empty(),
            given_back: 0,
            waiting: 0,
            turned_away: 0,
            asked: 0,
        }
    }

    /// The number of guards that are out.
    pub open spec fn guards(self) -> int {
        self.waits.len() - self.given_back
    }

    /// Whether there is a caller that can take this turn.
    pub open spec fn admits(self, turn: Turn) -> bool {
        match turn {
            Turn::Ask => true,
            Turn::Report(_) => self.waiting > 0,
            Turn::GiveBack => self.guards() > 0,
        }
    }

    /// After a turn.
    pub open spec fn after(self, turn: Turn) -> Round {
        match turn {
            Turn::Ask => {
                let next = Round {
                    limiter: self.limiter.answered(),
                    asked: self.asked + 1,
                    ..self
                };
                match self.limiter.answer() {
                    Progress::Admitted => Round { waits: self.waits.push(0), ..next },
                    Progress::Waiting => Round { waiting: self.waiting + 1, ..next },
                    Progress::Rejected => Round { turned_away: self.turned_away + 1, ..next },
                }
            },
            Turn::Report(event) => {
                let next = Round { limiter: self.limiter.reported(event), ..self };
                match self.limiter.verdict(event) {
                    Progress::Admitted => Round {
                        waits: self.waits.push(event.waited()),
                        waiting: (self.waiting - 1) as nat,
                        ..next
                    },
                    Progress::Waiting => next,
                    Progress::Rejected => Round {
                        waiting: (self.waiting - 1) as nat,
                        turned_away: self.turned_away + 1,
                        ..next
                    },
                }
            },
            Turn::GiveBack => Round {
                limiter: self.limiter.released(),
                given_back: self.given_back + 1,
                ..self
            },
        }
    }
}

/// After a number of turns.
pub open spec fn played(start: Round, turns: Seq<Turn>) -> Round
    decreases turns.len(),
{
    if turns.len() == 0 {
        start
    } else {
        played(start, turns.drop_last()).after(turns.last())
    }
}

/// Whether there is a caller for every turn.
pub open spec fn playable(start: Round, turns: Seq<Turn>) -> bool
    decreases turns.len(),
{
    turns.len() > 0 ==> {
        &&& playable(start, turns.drop_last())
        &&& played(start, turns.drop_last()).admits(turns.last())
    }
}

/// The sum of waits, each cut to 64 bits.
pub open spec fn sum_of(waits: Seq<u128>) -> nat
    decreases waits.len(),
{
    if waits.len() == 0 {
        0
    } else {
        sum_of(waits.drop_last()) + (waits.last() as u64) as nat
    }
}

/// Whether the statistics say what the callers hold and went through.
pub open spec fn tells_the_truth(round: Round) -> bool {
    &&& round.limiter.bounded()
    &&& round.limiter.inflight == round.guards()
    &&& round.limiter.queued == round.waiting
    &&& round.limiter.acquired == round.waits.len()
    &&& round.limiter.acquired == round.limiter.inflight + round.given_back
    &&& round.limiter.rejected == round.turned_away
    &&& round.limiter.waited_ns == sum_of(round.waits)
    &&& round.limiter.requests() == round.asked
}

// --- Laws ---

/// After any turns of any callers, slots and queue are within their bounds, as
/// many operations hold a slot as guards are out, as many were given one as hold
/// one or gave it back, and the time waited is that of all guards together.
pub proof fn statistics_tell_the_truth(cap: nat, queue_cap: nat, turns: Seq<Turn>)
    requires
        playable(Round::start(cap, queue_cap), turns),
    ensures
        ({
            let end = played(Round::start(cap, queue_cap), turns);
            &&& tells_the_truth(end)
            &&& end.limiter.cap == cap
            &&& end.limiter.queue_cap == queue_cap
        }),
    decreases turns.len(),
{
    let start = Round::start(cap, queue_cap);
    if turns.len() > 0 {
        statistics_tell_the_truth(cap, queue_cap, turns.drop_last());
        let before = played(start, turns.drop_last());
        assert(before.waits.push(0).drop_last() =~= before.waits);
        if let Turn::Report(event) = turns.last() {
            assert(before.waits.push(event.waited()).drop_last() =~= before.waits);
        }
    }
}

/// The totals never decrease.
pub proof fn totals_never_decrease(round: Round, turn: Turn)
    ensures
        round.limiter.acquired <= round.after(turn).limiter.acquired,
        round.limiter.rejected <= round.after(turn).limiter.rejected,
        round.limiter.waited_ns <= round.after(turn).limiter.waited_ns,
{
}

/// One acquisition: what its caller finds at each of its turns, and what it
/// reports from the queue. In between, other callers may have their turns.
pub struct Acquisition {
    /// The limiter at each of its turns: when it asks, and at each report.
    pub finds: Seq<LimiterModel>,
    /// What it reports.
    pub events: Seq<WaitEvent>,
}

impl Acquisition {
    /// How far it is after its turn number `i`, from zero.
    pub open spec fn progress(self, i: int) -> Progress {
        if i == 0 {
            self.finds[0].answer()
        } else {
            self.finds[i].verdict(self.events[i - 1])
        }
    }

    /// The limiter after its turn number `i`.
    pub open spec fn leaves(self, i: int) -> LimiterModel {
        if i == 0 {
            self.finds[0].answered()
        } else {
            self.finds[i].reported(self.events[i - 1])
        }
    }

    /// It waits until its last turn, and is over then. While it waits, its place
    /// in the queue is counted.
    pub open spec fn complete(self) -> bool {
        &&& self.finds.len() == self.events.len() + 1
        &&& forall|i: int| 0 <= i < self.events.len() ==> #[trigger] self.progress(i) is Waiting
        &&& !(self.progress(self.events.len() as int) is Waiting)
        &&& forall|i: int| 0 < i <= self.events.len() ==> (#[trigger] self.finds[i]).queued > 0
    }

    /// Whether it is given a slot.
    pub open spec fn succeeds(self) -> bool {
        self.progress(self.events.len() as int) is Admitted
    }

    /// By how much its own first `n` turns change a number of the limiter.
    pub open spec fn adds(self, number: spec_fn(LimiterModel) -> int, n: int) -> int
        decreases n,
    {
        if n <= 0 {
            0
        } else {
            self.adds(number, n - 1) + number(self.leaves(n - 1)) - number(self.finds[n - 1])
        }
    }
}

/// While an acquisition waits, its own turns have added its place in the queue
/// and nothing else.
proof fn lemma_while_waiting(own: Acquisition, n: int)
    requires
        own.complete(),
        1 <= n <= own.events.len(),
    ensures
        own.adds(|l: LimiterModel| l.acquired as int, n) == 0,
        own.adds(|l: LimiterModel| l.rejected as int, n) == 0,
        own.adds(|l: LimiterModel| l.inflight as int, n) == 0,
        own.adds(|l: LimiterModel| l.queued as int, n) == 1,
    decreases n,
{
    assert(own.progress(n - 1) is Waiting);
    reveal_with_fuel(Acquisition::adds, 2);
    if n > 1 {
        lemma_while_waiting(own, n - 1);
    }
}

/// An acquisition that is over has added exactly one to the acquisitions, if it
/// succeeded, or else exactly one to the rejections. It holds a slot exactly if
/// it succeeded, and leaves no place in the queue behind. It fails only if there
/// are no slots at all, if slots and queue were full when it asked, or if its
/// time ran out. One that finds a free slot takes it at once.
pub proof fn an_acquisition_counts_once(own: Acquisition)
    requires
        own.complete(),
    ensures
        ({
            let n = own.finds.len() as int;
            let gain = if own.succeeds() {
                1int
            } else {
                0int
            };
            &&& own.adds(|l: LimiterModel| l.acquired as int, n) == gain
            &&& own.adds(|l: LimiterModel| l.rejected as int, n) == 1 - gain
            &&& own.adds(|l: LimiterModel| l.inflight as int, n) == gain
            &&& own.adds(|l: LimiterModel| l.queued as int, n) == 0
        }),
        own.finds[0].has_slot() ==> own.events.len() == 0 && own.succeeds(),
        !own.succeeds() ==> {
            ||| own.finds[0].cap == 0
            ||| own.events.len() == 0 && !own.finds[0].has_slot() && !own.finds[0].has_place()
            ||| own.events.len() > 0 && match own.events.last() {
                WaitEvent::Waiting { remaining_nanos } => remaining_nanos == 0,
                WaitEvent::Woken { timed_out, .. } => timed_out && !own.finds.last().has_slot(),
            }
        },
{
    let n = own.events.len() as int;
    reveal_with_fuel(Acquisition::adds, 2);
    if n > 0 {
        lemma_while_waiting(own, n);
        assert(own.progress(0) is Waiting);
        assert(own.finds[n].queued > 0);
    }
}

} // verus!
