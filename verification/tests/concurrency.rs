//! The concurrency limiter.

use fusecraft::error::FsError;
use fusecraft::limiter::{
    Admission, BlockingLimiter, LimiterGuard, QueueTicket, WaitEvent, WaitStep,
};

fn granted(limiter: &mut BlockingLimiter) -> LimiterGuard {
    match limiter.acquire().unwrap() {
        Admission::Granted(guard) => guard,
        other => panic!("expected a slot, got {other:?}"),
    }
}

fn queued(limiter: &mut BlockingLimiter) -> QueueTicket {
    match limiter.acquire().unwrap() {
        Admission::Queued(ticket) => ticket,
        other => panic!("expected a place in the queue, got {other:?}"),
    }
}

fn rejected(limiter: &mut BlockingLimiter) -> i32 {
    match limiter.acquire() {
        Err(FsError::Errno(e)) => e,
        other => panic!("expected a rejection, got {other:?}"),
    }
}

#[test]
fn acquire_under_cap_succeeds() {
    let mut limiter = BlockingLimiter::new(2, 0);
    {
        let g1 = granted(&mut limiter);
        let g2 = granted(&mut limiter);
        assert_eq!(g1.queue_wait_nanos(), 0);
        assert_eq!(g2.queue_wait_nanos(), 0);
        let stats = limiter.stats();
        assert_eq!(stats.inflight, 2);
        assert_eq!(stats.queued, 0);
        limiter.release(g1);
        limiter.release(g2);
    }
    let stats = limiter.stats();
    assert_eq!(stats.inflight, 0);
}

#[test]
fn acquire_over_cap_blocks_until_release() {
    let mut limiter = BlockingLimiter::new(1, 2);
    let guard = granted(&mut limiter);

    let ticket = queued(&mut limiter);
    assert_eq!(limiter.stats().queued, 1);
    // Woken for nothing: the slot is still taken.
    let ticket = match limiter.retry(ticket, 10_000_000) {
        Err(ticket) => ticket,
        Ok(guard) => panic!("no slot was free, got {guard:?}"),
    };
    limiter.release(guard);
    let g = limiter.retry(ticket, 50_000_000).unwrap();
    assert!(g.queue_wait_nanos() > 0);
    assert_eq!(limiter.stats().queued, 0);
    limiter.release(g);
    assert_eq!(limiter.stats().inflight, 0);
}

#[test]
fn queue_cap_zero_rejects_when_full() {
    let mut limiter = BlockingLimiter::new(1, 0);
    let _g = granted(&mut limiter);
    let result = limiter.acquire();
    assert!(result.is_err());
    match result.unwrap_err() {
        FsError::Errno(e) => assert_eq!(e, libc::EAGAIN),
        other => panic!("expected EAGAIN, got: {other:?}"),
    }
}

#[test]
fn guard_drop_releases_capacity() {
    let mut limiter = BlockingLimiter::new(2, 0);
    for _ in 0..100 {
        let g = granted(&mut limiter);
        limiter.release(g);
    }
    assert_eq!(limiter.stats().inflight, 0);
}

#[test]
fn limiter_does_not_underflow() {
    let mut limiter = BlockingLimiter::new(4, 0);
    for _ in 0..50 {
        let g = granted(&mut limiter);
        limiter.release(g);
    }
    let stats = limiter.stats();
    assert_eq!(stats.inflight, 0);
    assert_eq!(stats.total_acquired, 50);
}

#[test]
fn queue_wait_is_recorded() {
    let mut limiter = BlockingLimiter::new(1, 4);
    let guard = granted(&mut limiter);
    let ticket = queued(&mut limiter);
    limiter.release(guard);
    let g = limiter.retry(ticket, 50_000_000).unwrap();
    assert!(g.queue_wait_nanos() > 40_000_000);
    assert!(limiter.stats().total_queue_wait_ns >= 40_000_000);
    assert_eq!(limiter.stats().total_queue_wait_ns, 50_000_000);
}

#[test]
fn cap_zero_always_rejects() {
    let mut limiter = BlockingLimiter::new(0, 10);
    for _ in 0..5 {
        let result = limiter.acquire();
        assert!(result.is_err());
        match result.unwrap_err() {
            FsError::Errno(e) => assert_eq!(e, libc::EAGAIN),
            other => panic!("expected EAGAIN, got: {other:?}"),
        }
    }
    let stats = limiter.stats();
    assert_eq!(stats.total_rejected, 5);
    assert_eq!(stats.total_acquired, 0);
}

#[test]
fn concurrent_threads_respect_capacity() {
    // Twenty callers arrive at once and leave one by one.
    let mut limiter = BlockingLimiter::new(4, 16);
    let mut held = Vec::new();
    let mut waiting = Vec::new();
    for _ in 0..20 {
        match limiter.acquire().unwrap() {
            Admission::Granted(guard) => held.push(guard),
            Admission::Queued(ticket) => waiting.push(ticket),
        }
        assert!(limiter.stats().inflight <= 4);
    }
    assert_eq!(held.len(), 4);
    assert_eq!(waiting.len(), 16);
    let mut max_concurrent = limiter.stats().inflight;
    while let Some(guard) = held.pop() {
        limiter.release(guard);
        if let Some(ticket) = waiting.pop() {
            held.push(limiter.retry(ticket, 10_000_000).unwrap());
        }
        max_concurrent = max_concurrent.max(limiter.stats().inflight);
    }
    assert!(max_concurrent <= 4, "max concurrent was {max_concurrent}");
    assert_eq!(limiter.stats().total_acquired, 20);
    assert_eq!(limiter.stats().inflight, 0);
}

#[test]
fn stats_tracks_rejections() {
    let mut limiter = BlockingLimiter::new(1, 0);
    let _g = granted(&mut limiter);

    for _ in 0..5 {
        let _ = limiter.acquire();
    }

    let stats = limiter.stats();
    assert_eq!(stats.total_acquired, 1);
    assert_eq!(stats.total_rejected, 5);
}

#[test]
fn queue_overflow_is_rejected() {
    let mut limiter = BlockingLimiter::new(2, 3);
    let _held = [granted(&mut limiter), granted(&mut limiter)];
    let _waiting = [
        queued(&mut limiter),
        queued(&mut limiter),
        queued(&mut limiter),
    ];
    assert_eq!(rejected(&mut limiter), libc::EAGAIN);
    let stats = limiter.stats();
    assert_eq!((stats.inflight, stats.queued), (2, 3));
    assert_eq!(stats.total_rejected, 1);
}

#[test]
fn deadlines_end_a_wait() {
    let mut limiter = BlockingLimiter::new(1, 1);
    let _g = granted(&mut limiter);
    let ticket = queued(&mut limiter);
    // Time is left: sleep.
    let step = limiter.wait_step(ticket, WaitEvent::Waiting { remaining_nanos: 5 });
    let ticket = match step {
        WaitStep::Sleep(ticket) => ticket,
        other => panic!("expected to sleep, got {other:?}"),
    };
    // Woken early without a free slot: sleep on.
    let step = limiter.wait_step(
        ticket,
        WaitEvent::Woken {
            timed_out: false,
            waited_nanos: 3,
        },
    );
    let ticket = match step {
        WaitStep::Sleep(ticket) => ticket,
        other => panic!("expected to sleep, got {other:?}"),
    };
    // The sleep ran out.
    let step = limiter.wait_step(
        ticket,
        WaitEvent::Woken {
            timed_out: true,
            waited_nanos: 5,
        },
    );
    match step {
        WaitStep::Rejected(FsError::Errno(e)) => assert_eq!(e, libc::EAGAIN),
        other => panic!("expected EAGAIN, got {other:?}"),
    }
    let stats = limiter.stats();
    assert_eq!((stats.queued, stats.total_rejected), (0, 1));
    assert_eq!(stats.total_queue_wait_ns, 0);
}

#[test]
fn expired_deadlines_are_noticed_before_sleeping() {
    let mut limiter = BlockingLimiter::new(1, 1);
    let _g = granted(&mut limiter);
    let ticket = queued(&mut limiter);
    let step = limiter.wait_step(ticket, WaitEvent::Waiting { remaining_nanos: 0 });
    assert!(matches!(
        step,
        WaitStep::Rejected(FsError::Errno(libc::EAGAIN))
    ));
    assert_eq!(limiter.stats().queued, 0);
}

#[test]
fn a_slot_freed_in_time_is_taken() {
    let mut limiter = BlockingLimiter::new(1, 1);
    let g = granted(&mut limiter);
    let ticket = queued(&mut limiter);
    limiter.release(g);
    // Even at the very deadline the free slot is taken.
    let step = limiter.wait_step(
        ticket,
        WaitEvent::Woken {
            timed_out: true,
            waited_nanos: 9,
        },
    );
    match step {
        WaitStep::Admitted(guard) => assert_eq!(guard.queue_wait_nanos(), 9),
        other => panic!("expected a slot, got {other:?}"),
    }
    let stats = limiter.stats();
    assert_eq!(
        (stats.inflight, stats.queued, stats.total_queue_wait_ns),
        (1, 0, 9)
    );
}

#[test]
fn counters_have_room_at_first() {
    let limiter = BlockingLimiter::new(1, 1);
    assert!(limiter.can_count(0));
    assert!(limiter.can_count(u64::MAX as u128));
}

#[test]
fn statistics_agree_with_what_callers_hold() {
    let mut limiter = BlockingLimiter::new(3, 4);
    let mut guards = Vec::new();
    let mut tickets = Vec::new();
    let (mut handed, mut given_back, mut away, mut asked, mut waits) = (0u64, 0u64, 0u64, 0u64, 0u64);
    let mut x: u64 = 1;
    for _ in 0..2_000 {
        x = x.wrapping_mul(6_364_136_223_846_793_005).wrapping_add(1_442_695_040_888_963_407);
        let before = limiter.stats();
        match (x >> 40) % 4 {
            0 | 1 => {
                asked += 1;
                match limiter.acquire() {
                    Ok(Admission::Granted(guard)) => {
                        handed += 1;
                        guards.push(guard);
                    }
                    Ok(Admission::Queued(ticket)) => tickets.push(ticket),
                    Err(error) => {
                        assert_eq!(error, FsError::Errno(libc::EAGAIN));
                        away += 1;
                    }
                }
            }
            2 => {
                if let Some(ticket) = tickets.pop() {
                    let waited = (x >> 20) % 1_000;
                    let event = WaitEvent::Woken {
                        timed_out: (x >> 50) % 2 == 0,
                        waited_nanos: u128::from(waited),
                    };
                    match limiter.wait_step(ticket, event) {
                        WaitStep::Sleep(ticket) => tickets.push(ticket),
                        WaitStep::Admitted(guard) => {
                            assert_eq!(guard.queue_wait_nanos(), u128::from(waited));
                            handed += 1;
                            waits += waited;
                            guards.push(guard);
                        }
                        WaitStep::Rejected(_) => away += 1,
                    }
                }
            }
            _ => {
                if let Some(guard) = guards.pop() {
                    limiter.release(guard);
                    given_back += 1;
                }
            }
        }
        let stats = limiter.stats();
        assert!(stats.inflight <= 3 && stats.queued <= 4);
        assert_eq!(stats.inflight, guards.len());
        assert_eq!(stats.queued, tickets.len());
        assert_eq!(stats.total_acquired, handed);
        assert_eq!(stats.total_acquired, stats.inflight as u64 + given_back);
        assert_eq!(stats.total_rejected, away);
        assert_eq!(stats.total_queue_wait_ns, waits);
        assert_eq!(handed + away + tickets.len() as u64, asked);
        assert!(stats.total_acquired >= before.total_acquired);
        assert!(stats.total_rejected >= before.total_rejected);
        assert!(stats.total_queue_wait_ns >= before.total_queue_wait_ns);
    }
}

#[test]
fn a_timed_acquisition_counts_once() {
    // Admitted after two turns in the queue.
    let mut limiter = BlockingLimiter::new(1, 1);
    let held = granted(&mut limiter);
    let before = limiter.stats();
    let ticket = queued(&mut limiter);
    let ticket = match limiter.wait_step(ticket, WaitEvent::Waiting { remaining_nanos: 5 }) {
        WaitStep::Sleep(ticket) => ticket,
        other => panic!("expected to wait on, got {other:?}"),
    };
    limiter.release(held);
    let woken = WaitEvent::Woken {
        timed_out: false,
        waited_nanos: 3,
    };
    let guard = match limiter.wait_step(ticket, woken) {
        WaitStep::Admitted(guard) => guard,
        other => panic!("expected a slot, got {other:?}"),
    };
    let after = limiter.stats();
    assert_eq!(after.total_acquired, before.total_acquired + 1);
    assert_eq!(after.total_rejected, before.total_rejected);
    assert_eq!((after.inflight, after.queued), (1, 0));

    // Turned away when its time ran out.
    let ticket = queued(&mut limiter);
    let woken = WaitEvent::Woken {
        timed_out: true,
        waited_nanos: 3,
    };
    assert!(matches!(
        limiter.wait_step(ticket, woken),
        WaitStep::Rejected(FsError::Errno(libc::EAGAIN))
    ));
    let last = limiter.stats();
    assert_eq!(last.total_acquired, after.total_acquired);
    assert_eq!(last.total_rejected, after.total_rejected + 1);
    assert_eq!((last.inflight, last.queued), (1, 0));
    limiter.release(guard);
}
