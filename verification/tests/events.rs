//! Events and the clock.

use fusecraft::events::{now_unix_nanos, timestamp, Event, EventSink, NullEventSink, Outcome};
use fusecraft::op::FsOp;

fn sample_event(seq: u64, outcome: Outcome, errno: Option<i32>) -> Event {
    Event {
        ts_unix_nanos: 1_700_000_000_000_000_000,
        seq,
        op: FsOp::Read,
        ino: 100,
        offset: 0,
        len: 4096,
        outcome,
        errno,
        queue_wait_us: 1,
        injected_latency_us: 42,
        bandwidth_delay_us: 3,
        total_duration_us: 50,
    }
}

#[test]
fn null_sink_accepts_events() {
    let sink = NullEventSink;
    sink.emit(&sample_event(1, Outcome::Success, None));
}

#[test]
fn now_unix_nanos_is_positive() {
    assert!(now_unix_nanos() > 0);
}

#[test]
fn now_unix_nanos_lies_between_two_readings() {
    let read = || {
        std::time::SystemTime::now()
            .duration_since(std::time::SystemTime::UNIX_EPOCH)
            .unwrap()
            .as_nanos()
    };
    let before = read();
    let now = now_unix_nanos();
    let after = read();
    // The wall clock may be adjusted between readings; allow for that.
    assert!(now + 1_000_000_000 >= before);
    assert!(now <= after + 1_000_000_000);
}

#[test]
fn timestamps_before_the_epoch_are_zero() {
    assert_eq!(timestamp(None), 0);
    assert_eq!(timestamp(Some(17)), 17);
}

#[test]
fn outcome_names() {
    assert_eq!(Outcome::Success.as_str(), "ok");
    assert_eq!(Outcome::Error.as_str(), "error");
}

#[test]
fn null_sink_usable_as_trait_object() {
    let sink: Box<dyn EventSink> = Box::new(NullEventSink::default());
    sink.emit(&sample_event(7, Outcome::Error, Some(libc::EIO)));
}
