use ping_catch::{
    compute_timeout, receive_timeout, CaptureLoop, Instant, Message, ReceiveOutcome, TimeVal,
    RECEIVE_TIMEOUT_MICROS,
};

fn packet(id: u8) -> Vec<u8> {
    let mut p = vec![0u8; 40];
    p[0] = 0x45;
    p[5] = id;
    p[20] = 0;
    p
}

fn at(sec: i64) -> Instant {
    Instant { sec, nsec: 0 }
}

#[test]
fn zero_duration_gives_empty_run() {
    let mut c: CaptureLoop<Message> = CaptureLoop::start(at(100), 0);
    assert!(!c.keep_running(at(100)));
    assert!(c.finish().is_empty());
}

#[test]
fn runs_until_deadline() {
    let mut c: CaptureLoop<u16> = CaptureLoop::start(Instant { sec: 10, nsec: 500 }, 2_000_000);
    assert!(c.keep_running(at(10)));
    assert!(c.keep_running(Instant { sec: 12, nsec: 499 }));
    assert!(!c.keep_running(Instant { sec: 12, nsec: 500 }));
    assert!(!c.keep_running(at(11)));
}

#[test]
fn results_keep_arrival_order() {
    let mut c = CaptureLoop::start(at(0), 60_000_000);
    let id = |m: Message| m.header.id;
    let mut buf = vec![0u8; 4096];
    assert!(c.keep_running(at(1)));
    buf[..40].copy_from_slice(&packet(7));
    assert!(c.on_receive(ReceiveOutcome::Received(40), &buf, &id));
    assert!(c.keep_running(at(2)));
    buf[..40].copy_from_slice(&packet(3));
    assert!(c.on_receive(ReceiveOutcome::Received(40), &buf, &id));
    assert_eq!(c.finish(), vec![7, 3]);
}

#[test]
fn failed_and_undecodable_receives_add_nothing() {
    let mut c = CaptureLoop::start(at(0), 60_000_000);
    let id = |m: Message| m.header.id;
    let buf = packet(9);
    assert!(!c.on_receive(ReceiveOutcome::TimedOut, &buf, &id));
    assert!(!c.on_receive(ReceiveOutcome::Failed, &buf, &id));
    assert!(!c.on_receive(ReceiveOutcome::Received(30), &buf, &id));
    assert!(c.on_receive(ReceiveOutcome::Received(40), &buf, &id));
    assert_eq!(c.finish(), vec![9]);
}

#[test]
fn timeout_split_into_seconds_and_micros() {
    assert_eq!(compute_timeout(3_000_000), TimeVal { tv_sec: 3, tv_usec: 0 });
    assert_eq!(compute_timeout(2_500_001), TimeVal { tv_sec: 2, tv_usec: 500_001 });
    assert_eq!(compute_timeout(999_999), TimeVal { tv_sec: 0, tv_usec: 999_999 });
    assert_eq!(receive_timeout(), compute_timeout(RECEIVE_TIMEOUT_MICROS));
    assert_eq!(receive_timeout(), TimeVal { tv_sec: 3, tv_usec: 0 });
}
