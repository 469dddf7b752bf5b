//! Concurrency limiter with a bounded wait queue.
//!
//! A caller asks for a slot with [`BlockingLimiter::acquire`]. It is granted
//! one at once, or put in the queue, or turned away. A queued caller sleeps
//! until it is woken and then takes a [`BlockingLimiter::wait_step`], until it
//! is admitted or gives up. Slots are given back with
//! [`BlockingLimiter::release`].

use vstd::prelude::*;

use crate::errno::EAGAIN;
use crate::error::FsError;

verus! {

/// Statistics snapshot for a [`BlockingLimiter`].
#[derive(Copy, Clone, Debug, PartialEq, Eq, Structural)]
pub struct LimiterStats {
    /// Number of operations currently holding a slot.
    pub inflight: usize,
    /// Number of operations waiting in the queue for a slot.
    pub queued: usize,
    /// Total number of operations that have been acquired.
    pub total_acquired: u64,
    /// Total number of operations rejected due to a full queue.
    pub total_rejected: u64,
    /// Cumulative queue wait time across all admitted acquisitions, in nanoseconds.
    pub total_queue_wait_ns: u64,
}

impl Default for LimiterStats {
    fn default() -> (stats: Self)
        ensures
            stats == (LimiterStats {
                inflight: 0,
                queued: 0,
                total_acquired: 0,
                total_rejected: 0,
                total_queue_wait_ns: 0,
            }),
    {
        LimiterStats {
            inflight: 0,
            queued: 0,
            total_acquired: 0,
            total_rejected: 0,
            total_queue_wait_ns: 0,
        }
    }
}

/// A concurrency limiter.
///
/// At most `cap` operations hold a slot at a time, and at most `queue_cap`
/// more wait for one. Where both are used up, acquisitions fail with `EAGAIN`.
/// If `cap` is zero, every acquisition fails.
#[derive(Debug)]
pub struct BlockingLimiter {
    cap: usize,
    queue_cap: usize,
    inflight: usize,
    queued: usize,
    total_acquired: u64,
    total_rejected: u64,
    total_queue_wait_ns: u64,
}

/// A slot that is held.
#[derive(Debug)]
pub struct LimiterGuard {
    queue_wait_nanos: u128,
}

/// A place in the queue.
#[derive(Debug)]
pub struct QueueTicket {
    place: (),
}

/// The answer to a request for a slot, other than a rejection.
#[derive(Debug)]
pub enum Admission {
    /// The caller holds a slot.
    Granted(LimiterGuard),
    /// The caller has a place in the queue.
    Queued(QueueTicket),
}

/// What a queued caller has to report.
#[derive(Copy, Clone, Debug, PartialEq, Eq, Structural)]
pub enum WaitEvent {
    /// It is about to sleep, and this much of its patience is left.
    Waiting {
        /// Nanoseconds until its deadline; zero if that has passed.
        remaining_nanos: u128,
    },
    /// It was woken, or its sleep ran out.
    Woken {
        /// Whether the sleep ran out.
        timed_out: bool,
        /// Nanoseconds since it entered the queue.
        waited_nanos: u128,
    },
}

/// What a queued caller is to do.
#[derive(Debug)]
pub enum WaitStep {
    /// Sleep until woken, then report.
    Sleep(QueueTicket),
    /// It holds a slot now.
    Admitted(LimiterGuard),
    /// It left the queue without a slot.
    Rejected(FsError),
}

/// How far a request for a slot has come.
pub enum Progress {
    /// It was given a slot.
    Admitted,
    /// It has a place in the queue.
    Waiting,
    /// It was turned away.
    Rejected,
}

/// The state of a limiter.
#[verifier::ext_equal]
pub struct LimiterModel {
    /// How many may hold a slot.
    pub cap: nat,
    /// How many may wait for one.
    pub queue_cap: nat,
    /// How many hold a slot.
    pub inflight: nat,
    /// How many wait for one.
    pub queued: nat,
    /// How many were given a slot so far.
    pub acquired: nat,
    /// How many were turned away so far.
    pub rejected: nat,
    /// How many nanoseconds those that were given a slot have waited for it.
    pub waited_ns: nat,
}

impl LimiterModel {
    /// A limiter that nobody has used yet.
    pub open spec fn fresh(cap: nat, queue_cap: nat) -> LimiterModel {
        LimiterModel {
            cap,
            queue_cap,
            inflight: 0,
            queued: 0,
            acquired: 0,
            rejected: 0,
            waited_ns: 0,
        }
    }

    /// Slots and queue are within their bounds.
    pub open spec fn bounded(self) -> bool {
        self.inflight <= self.cap && self.queued <= self.queue_cap
    }

    /// Whether a slot is free.
    pub open spec fn has_slot(self) -> bool {
        self.inflight < self.cap
    }

    /// Whether a caller that finds no free slot may wait for one.
    pub open spec fn has_place(self) -> bool {
        self.cap > 0 && self.queued < self.queue_cap
    }

    /// How many requests the limiter has seen.
    pub open spec fn requests(self) -> nat {
        self.acquired + self.rejected + self.queued
    }

    /// After a newcomer was given a slot.
    pub open spec fn granted(self) -> LimiterModel {
        LimiterModel { inflight: self.inflight + 1, acquired: self.acquired + 1, ..self }
    }

    /// After a newcomer was put in the queue.
    pub open spec fn enqueued(self) -> LimiterModel {
        LimiterModel { queued: self.queued + 1, ..self }
    }

    /// After a newcomer was turned away.
    pub open spec fn refused(self) -> LimiterModel {
        LimiterModel { rejected: self.rejected + 1, ..self }
    }

    /// After one left the queue with a slot, having waited for `waited_ns`.
    pub open spec fn admitted(self, waited_ns: nat) -> LimiterModel {
        LimiterModel {
            inflight: self.inflight + 1,
            queued: (self.queued - 1) as nat,
            acquired: self.acquired + 1,
            waited_ns: self.waited_ns + waited_ns,
            ..self
        }
    }

    /// After one left the queue without a slot.
    pub open spec fn expired(self) -> LimiterModel {
        LimiterModel {
            queued: (self.queued - 1) as nat,
            rejected: self.rejected + 1,
            ..self
        }
    }

    /// After one gave its slot back.
    pub open spec fn released(self) -> LimiterModel {
        LimiterModel { inflight: (self.inflight - 1) as nat, ..self }
    }

    /// What a newcomer that asks for a slot is answered.
    pub open spec fn answer(self) -> Progress {
        if self.has_slot() {
            Progress::Admitted
        } else if self.has_place() {
            Progress::Waiting
        } else {
            Progress::Rejected
        }
    }

    /// After a newcomer was answered.
    pub open spec fn answered(self) -> LimiterModel {
        match self.answer() {
            Progress::Admitted => self.granted(),
            Progress::Waiting => self.enqueued(),
            Progress::Rejected => self.refused(),
        }
    }

    /// What becomes of a queued caller that reports `event`.
    pub open spec fn verdict(self, event: WaitEvent) -> Progress {
        match event {
            WaitEvent::Waiting { remaining_nanos } => if remaining_nanos > 0 {
                Progress::Waiting
            } else {
                Progress::Rejected
            },
            WaitEvent::Woken { timed_out, .. } => if self.has_slot() {
                Progress::Admitted
            } else if timed_out {
                Progress::Rejected
            } else {
                Progress::Waiting
            },
        }
    }

    /// After a queued caller has reported `event`.
    pub open spec fn reported(self, event: WaitEvent) -> LimiterModel {
        match self.verdict(event) {
            Progress::Admitted => self.admitted((event.waited() as u64) as nat),
            Progress::Waiting => self,
            Progress::Rejected => self.expired(),
        }
    }

    /// The counters can count one more request that waits for `waited_ns`.
    pub open spec fn countable(self, waited_ns: nat) -> bool {
        &&& self.acquired < u64::MAX
        &&& self.rejected < u64::MAX
        &&& self.waited_ns + waited_ns <= u64::MAX
    }
}

impl WaitEvent {
    /// How long the caller has been in the queue, in nanoseconds, if it was
    /// woken.
    pub open spec fn waited(self) -> u128 {
        match self {
            WaitEvent::Waiting { .. } => 0,
            WaitEvent::Woken { waited_nanos, .. } => waited_nanos,
        }
    }
}

impl LimiterGuard {
    /// How long the holder waited in the queue, in nanoseconds.
    pub closed spec fn waited(self) -> u128 {
        self.queue_wait_nanos
    }

    /// How long the holder waited in the queue, in nanoseconds.
    pub fn queue_wait_nanos(&self) -> (nanos: u128)
        ensures
            nanos == self.waited(),
    {
        self.queue_wait_nanos
    }
}

impl View for BlockingLimiter {
    type V = LimiterModel;

    closed spec fn view(&self) -> LimiterModel {
        LimiterModel {
            cap: self.cap as nat,
            queue_cap: self.queue_cap as nat,
            inflight: self.inflight as nat,
            queued: self.queued as nat,
            acquired: self.total_acquired as nat,
            rejected: self.total_rejected as nat,
            waited_ns: self.total_queue_wait_ns as nat,
        }
    }
}

impl BlockingLimiter {
    /// Create a new limiter with the given concurrency capacity and queue cap.
    ///
    /// A `cap` of zero means all acquisitions will be rejected immediately.
    pub fn new(cap: usize, queue_cap: usize) -> (limiter: Self)
        ensures
            limiter@ == LimiterModel::fresh(cap as nat, queue_cap as nat),
    {
        BlockingLimiter {
            cap,
            queue_cap,
            inflight: 0,
            queued: 0,
            total_acquired: 0,
            total_rejected: 0,
            total_queue_wait_ns: 0,
        }
    }

    /// Whether the counters can count one more request that waits for
    /// `waited_nanos`.
    pub fn can_count(&self, waited_nanos: u128) -> (room: bool)
        ensures
            room == self@.countable((waited_nanos as u64) as nat),
    {
        self.total_acquired < u64::MAX && self.total_rejected < u64::MAX
            && waited_nanos as u64 <= u64::MAX - self.total_queue_wait_ns
    }

    /// Ask for a slot.
    ///
    /// Fails with `EAGAIN` if the cap is zero, or if neither a slot nor a place
    /// in the queue is free.
    pub fn acquire(&mut self) -> (admission: Result<Admission, FsError>)
        requires
            old(self)@.countable(0),
        ensures
            match admission {
                Ok(Admission::Granted(guard)) => {
                    &&& old(self)@.has_slot()
                    &&& guard.waited() == 0
                    &&& final(self)@ == old(self)@.granted()
                },
                Ok(Admission::Queued(_)) => {
                    &&& !old(self)@.has_slot()
                    &&& old(self)@.has_place()
                    &&& final(self)@ == old(self)@.enqueued()
                },
                Err(error) => {
                    &&& !old(self)@.has_slot()
                    &&& !old(self)@.has_place()
                    &&& error == FsError::Errno(EAGAIN)
                    &&& final(self)@ == old(self)@.refused()
                },
            },
            final(self)@ == old(self)@.answered(),
            final(self)@.requests() == old(self)@.requests() + 1,
            old(self)@.bounded() ==> final(self)@.bounded(),
    {
        // Nobody is admitted where there are no slots at all.
        if self.cap == 0 {
            self.total_rejected = self.total_rejected + 1;
            return Err(FsError::Errno(EAGAIN));
        }
        if self.inflight < self.cap {
            self.inflight = self.inflight + 1;
            self.total_acquired = self.total_acquired + 1;
            return Ok(Admission::Granted(LimiterGuard { queue_wait_nanos: 0 }));
        }
        if self.queued >= self.queue_cap {
            self.total_rejected = self.total_rejected + 1;
            return Err(FsError::Errno(EAGAIN));
        }
        self.queued = self.queued + 1;
        Ok(Admission::Queued(QueueTicket { place: () }))
    }

    /// A queued caller was woken after `waited_nanos` in the queue: it leaves
    /// the queue with a slot if one is free, and else keeps its place.
    pub fn retry(&mut self, ticket: QueueTicket, waited_nanos: u128) -> (outcome: Result<
        LimiterGuard,
        QueueTicket,
    >)
        requires
            old(self)@.queued > 0,
            old(self)@.countable((waited_nanos as u64) as nat),
        ensures
            match outcome {
                Ok(guard) => {
                    &&& old(self)@.has_slot()
                    &&& guard.waited() == waited_nanos
                    &&& final(self)@ == old(self)@.admitted((waited_nanos as u64) as nat)
                },
                Err(_) => {
                    &&& !old(self)@.has_slot()
                    &&& final(self)@ == old(self)@
                },
            },
            final(self)@ == old(self)@.reported(
                (WaitEvent::Woken { timed_out: false, waited_nanos }),
            ),
            final(self)@.requests() == old(self)@.requests(),
            old(self)@.bounded() ==> final(self)@.bounded(),
    {
        if self.inflight < self.cap {
            self.inflight = self.inflight + 1;
            self.queued = self.queued - 1;
            self.total_acquired = self.total_acquired + 1;
            self.total_queue_wait_ns = self.total_queue_wait_ns + waited_nanos as u64;
            Ok(LimiterGuard { queue_wait_nanos: waited_nanos })
        } else {
            Err(ticket)
        }
    }

    /// What a queued caller that reports `event` is to do.
    ///
    /// A caller without a deadline reports only that it was woken, never that
    /// its sleep ran out.
    pub fn wait_step(&mut self, ticket: QueueTicket, event: WaitEvent) -> (step: WaitStep)
        requires
            old(self)@.queued > 0,
            old(self)@.countable((event.waited() as u64) as nat),
        ensures
            match step {
                WaitStep::Sleep(_) => old(self)@.verdict(event) is Waiting,
                WaitStep::Admitted(guard) => {
                    &&& old(self)@.verdict(event) is Admitted
                    &&& guard.waited() == event.waited()
                },
                WaitStep::Rejected(error) => {
                    &&& old(self)@.verdict(event) is Rejected
                    &&& error == FsError::Errno(EAGAIN)
                },
            },
            final(self)@ == old(self)@.reported(event),
            final(self)@.requests() == old(self)@.requests(),
            old(self)@.bounded() ==> final(self)@.bounded(),
    {
        match event {
            WaitEvent::Waiting { remaining_nanos } => {
                if remaining_nanos > 0 {
                    return WaitStep::Sleep(ticket);
                }
            },
            WaitEvent::Woken { timed_out, waited_nanos } => {
                match self.retry(ticket, waited_nanos) {
                    Ok(guard) => return WaitStep::Admitted(guard),
                    // Woken for nothing: keep waiting unless the time is up.
                    Err(place) => if !timed_out {
                        return WaitStep::Sleep(place);
                    },
                }
            },
        }
        self.queued = self.queued - 1;
        self.total_rejected = self.total_rejected + 1;
        WaitStep::Rejected(FsError::Errno(EAGAIN))
    }

    /// Give a slot back. One waiter, if there is any, may be woken.
    pub fn release(&mut self, guard: LimiterGuard)
        requires
            old(self)@.inflight > 0,
        ensures
            final(self)@ == old(self)@.released(),
            final(self)@.requests() == old(self)@.requests(),
            old(self)@.bounded() ==> final(self)@.bounded(),
    {
        let _ = guard;
        self.inflight = self.inflight - 1;
    }

    /// Return a snapshot of the limiter's current statistics.
    pub fn stats(&self) -> (stats: LimiterStats)
        ensures
            stats.inflight == self@.inflight,
            stats.queued == self@.queued,
            stats.total_acquired == self@.acquired,
            stats.total_rejected == self@.rejected,
            stats.total_queue_wait_ns == self@.waited_ns,
    {
        LimiterStats {
            inflight: self.inflight,
            queued: self.queued,
            total_acquired: self.total_acquired,
            total_rejected: self.total_rejected,
            total_queue_wait_ns: self.total_queue_wait_ns,
        }
    }
}

/// Counters are machine words.
pub proof fn lemma_counters_fit(limiter: BlockingLimiter)
    ensures
        limiter@.acquired <= u64::MAX,
        limiter@.rejected <= u64::MAX,
        limiter@.waited_ns <= u64::MAX,
{
}

// --- Laws ---

/// A request is turned away exactly if there are no slots at all, or if every
/// slot and every place in the queue is taken.
pub proof fn rejected_exactly_when_full(limiter: LimiterModel)
    requires
        limiter.bounded(),
    ensures
        !limiter.has_slot() && !limiter.has_place() <==> limiter.cap == 0 || limiter.inflight
            + limiter.queued == limiter.cap + limiter.queue_cap,
{
}

/// With a slot given back, one that waits for it finds it free.
pub proof fn release_lets_a_waiter_in(limiter: LimiterModel)
    requires
        limiter.bounded(),
        limiter.inflight > 0,
    ensures
        limiter.released().has_slot(),
{
}

/// Taking a slot and giving it back leaves only the count of acquisitions changed.
pub proof fn release_undoes_grant(limiter: LimiterModel)
    ensures
        limiter.granted().released() == (LimiterModel {
            acquired: limiter.acquired + 1,
            ..limiter
        }),
{
}

/// Leaving the queue without a slot undoes entering it, and counts as a rejection.
pub proof fn expiry_undoes_queueing(limiter: LimiterModel)
    ensures
        limiter.enqueued().expired() == limiter.refused(),
{
}

/// No step leads out of the bounds on slots and queue.
pub proof fn every_step_keeps_the_bounds(limiter: LimiterModel, waited_ns: nat)
    requires
        limiter.bounded(),
    ensures
        LimiterModel::fresh(limiter.cap, limiter.queue_cap).bounded(),
        limiter.has_slot() ==> limiter.granted().bounded(),
        limiter.has_place() ==> limiter.enqueued().bounded(),
        limiter.refused().bounded(),
        limiter.has_slot() && limiter.queued > 0 ==> limiter.admitted(waited_ns).bounded(),
        limiter.queued > 0 ==> limiter.expired().bounded(),
        limiter.inflight > 0 ==> limiter.released().bounded(),
{
}

/// A newcomer is given a slot exactly if fewer are held than there are, and a
/// place in the queue exactly if there are slots, all are held, and fewer wait
/// than may.
pub proof fn newcomers_are_answered_by_the_numbers(limiter: LimiterModel)
    ensures
        limiter.has_slot() <==> limiter.inflight < limiter.cap,
        limiter.has_place() <==> 0 < limiter.cap && limiter.queued < limiter.queue_cap,
        limiter.answer() is Admitted <==> limiter.inflight < limiter.cap,
        limiter.answer() is Waiting <==> 0 < limiter.cap <= limiter.inflight && limiter.queued
            < limiter.queue_cap,
        ({
            let next = limiter.answered();
            let gain = |yes: bool|
                if yes {
                    1int
                } else {
                    0int
                };
            &&& next.inflight - limiter.inflight == gain(limiter.answer() is Admitted)
            &&& next.acquired - limiter.acquired == gain(limiter.answer() is Admitted)
            &&& next.queued - limiter.queued == gain(limiter.answer() is Waiting)
            &&& next.rejected - limiter.rejected == gain(limiter.answer() is Rejected)
            &&& next.waited_ns == limiter.waited_ns
            &&& next.cap == limiter.cap
            &&& next.queue_cap == limiter.queue_cap
        }),
{
}

/// A caller that is woken takes a free slot, and leaves without one exactly if
/// there is none and its time is up. One that is about to sleep leaves exactly
/// if it has no time left.
pub proof fn waiters_are_let_in_by_the_numbers(
    limiter: LimiterModel,
    timed_out: bool,
    waited_nanos: u128,
    remaining_nanos: u128,
)
    requires
        limiter.queued > 0,
    ensures
        ({
            let woken = WaitEvent::Woken { timed_out, waited_nanos };
            let next = limiter.reported(woken);
            &&& limiter.verdict(woken) is Admitted <==> limiter.inflight < limiter.cap
            &&& limiter.verdict(woken) is Rejected <==> limiter.cap <= limiter.inflight && timed_out
            &&& limiter.inflight < limiter.cap ==> next == (LimiterModel {
                inflight: limiter.inflight + 1,
                queued: (limiter.queued - 1) as nat,
                acquired: limiter.acquired + 1,
                waited_ns: limiter.waited_ns + (waited_nanos as u64) as nat,
                ..limiter
            })
            &&& limiter.cap <= limiter.inflight && timed_out ==> next == (LimiterModel {
                queued: (limiter.queued - 1) as nat,
                rejected: limiter.rejected + 1,
                ..limiter
            })
            &&& limiter.cap <= limiter.inflight && !timed_out ==> next == limiter
        }),
        ({
            let waiting = WaitEvent::Waiting { remaining_nanos };
            &&& limiter.verdict(waiting) is Rejected <==> remaining_nanos == 0
            &&& limiter.verdict(waiting) is Waiting <==> remaining_nanos > 0
            &&& limiter.reported(waiting) == if remaining_nanos > 0 {
                limiter
            } else {
                LimiterModel {
                    queued: (limiter.queued - 1) as nat,
                    rejected: limiter.rejected + 1,
                    ..limiter
                }
            }
        }),
        limiter.inflight > 0 ==> limiter.released() == (LimiterModel {
            inflight: (limiter.inflight - 1) as nat,
            ..limiter
        }),
{
}

} // verus!
