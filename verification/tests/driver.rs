use polled_tls::{
    AcceptAsync, Attempt, ConnectAsync, FakeHsSession, FakeSession, FatalKind, MidHandshake,
    PollOutcome, TlsError,
};

fn established() -> FakeSession {
    FakeSession::new(0, Vec::new(), Vec::new())
}

#[test]
fn resolves_once_after_interruptions() {
    let hs = FakeHsSession::new(3, None, established());
    let mut driver = MidHandshake::new(Attempt::Interrupted(hs));
    for _ in 0..3 {
        assert!(matches!(driver.try_poll(), PollOutcome::NotReady));
    }
    assert!(matches!(driver.try_poll(), PollOutcome::Ready(_)));
    assert!(driver.is_consumed());
    assert!(matches!(driver.try_poll(), PollOutcome::Misuse));
}

#[test]
fn failure_resolves_failed() {
    let err = TlsError::Fatal(FatalKind::Protocol);
    let hs = FakeHsSession::new(2, Some(err), established());
    let mut driver = MidHandshake::new(Attempt::Interrupted(hs));
    assert!(matches!(driver.try_poll(), PollOutcome::NotReady));
    assert!(matches!(driver.try_poll(), PollOutcome::NotReady));
    match driver.try_poll() {
        PollOutcome::Failed(e) => assert_eq!(e, err),
        other => panic!("expected the scripted failure, got {:?}", outcome_name(&other)),
    }
    assert!(matches!(driver.try_poll(), PollOutcome::Misuse));
}

#[test]
fn repoll_after_ready_is_misuse() {
    let hs = FakeHsSession::new(0, None, established());
    let mut driver = MidHandshake::new(Attempt::Interrupted(hs));
    assert!(matches!(driver.try_poll(), PollOutcome::Ready(_)));
    assert!(matches!(driver.try_poll(), PollOutcome::Misuse));
    assert!(matches!(driver.try_poll(), PollOutcome::Misuse));
}

#[test]
fn bounded_polls_for_every_interruption_count() {
    for n in 0u64..=50 {
        let hs = FakeHsSession::new(n, None, established());
        let mut driver = MidHandshake::new(Attempt::Interrupted(hs));
        let mut polls = 0u64;
        loop {
            match driver.try_poll() {
                PollOutcome::NotReady => {
                    polls += 1;
                    assert!(polls <= n, "no progress after {} interruptions", n);
                }
                PollOutcome::Ready(_) => {
                    polls += 1;
                    break;
                }
                other => panic!("unexpected outcome {:?}", outcome_name(&other)),
            }
        }
        assert_eq!(polls, n + 1);
    }
}

#[test]
fn eager_completion_resolves_on_first_poll() {
    let mut driver: MidHandshake<FakeHsSession> =
        MidHandshake::new(Attempt::Complete(established()));
    assert!(!driver.is_consumed());
    assert!(matches!(driver.try_poll(), PollOutcome::Ready(_)));
    assert!(matches!(driver.try_poll(), PollOutcome::Misuse));
}

#[test]
fn eager_failure_surfaces_on_first_poll() {
    let err = TlsError::Fatal(FatalKind::Certificate);
    let mut driver: MidHandshake<FakeHsSession> = MidHandshake::new(Attempt::Fatal(err));
    match driver.try_poll() {
        PollOutcome::Failed(e) => assert_eq!(e, err),
        other => panic!("expected the setup failure, got {:?}", outcome_name(&other)),
    }
    assert!(matches!(driver.try_poll(), PollOutcome::Misuse));
}

#[test]
fn connect_async_delegates() {
    let hs = FakeHsSession::new(1, None, established());
    let mut connect = ConnectAsync::new(Attempt::Interrupted(hs));
    assert!(matches!(connect.poll(), PollOutcome::NotReady));
    assert!(matches!(connect.poll(), PollOutcome::Ready(_)));
}

#[test]
fn accept_async_delegates() {
    let hs = FakeHsSession::new(0, None, established());
    let mut accept = AcceptAsync::new(Attempt::Interrupted(hs));
    assert!(matches!(accept.poll(), PollOutcome::Ready(_)));
}

fn outcome_name(r: &PollOutcome<FakeSession>) -> &'static str {
    match r {
        PollOutcome::NotReady => "NotReady",
        PollOutcome::Ready(_) => "Ready",
        PollOutcome::Failed(_) => "Failed",
        PollOutcome::Misuse => "Misuse",
    }
}
