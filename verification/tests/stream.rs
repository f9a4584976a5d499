use polled_tls::{Async, FakeSession, FatalKind, Handshake, TlsError, TlsStream, TlsStreamExt};

fn established_stream() -> TlsStream<FakeSession> {
    TlsStream::new(FakeSession::new(0, Vec::new(), Vec::new()))
}

/// Moves every raw byte queued by `from` into the incoming channel of `to`.
fn shuttle(from: &mut TlsStream<FakeSession>, to: &mut TlsStream<FakeSession>) {
    let bytes = from.wr.take_all();
    if !bytes.is_empty() {
        to.rd.push(&bytes);
    }
}

/// Reads from `stream` until it reports would-block or end-of-stream.
fn read_all(stream: &mut TlsStream<FakeSession>) -> Vec<u8> {
    let mut got = Vec::new();
    loop {
        match stream.read(65536) {
            Ok(chunk) => {
                if chunk.is_empty() {
                    return got;
                }
                got.extend_from_slice(&chunk);
            }
            Err(TlsError::WouldBlock) => return got,
            Err(e) => panic!("unexpected read failure {:?}", e),
        }
    }
}

#[test]
fn handshake_completes_over_loopback() {
    let client = FakeSession::new(1, vec![0x16], Vec::new());
    let server = FakeSession::new(1, Vec::new(), vec![0x16]);
    let mut ch = Handshake::new(Ok(TlsStream::new(client)));
    let mut sh = Handshake::new(Ok(TlsStream::new(server)));

    // First client poll emits its hello and suspends.
    assert!(matches!(ch.poll(), Ok(Async::NotReady)));
    let hello = match &mut ch {
        Handshake::Start(s) => s.wr.take_all(),
        _ => panic!("client handshake should still be in progress"),
    };
    assert_eq!(hello, vec![0x16]);

    // The server receives it, completes, and queues its reply.
    match &mut sh {
        Handshake::Start(s) => s.rd.push(&hello),
        _ => panic!("server handshake should still be in progress"),
    }
    let mut server_stream = match sh.poll() {
        Ok(Async::Ready(s)) => s,
        _ => panic!("server handshake should have completed"),
    };
    assert!(sh.is_done());

    // The reply completes the client in one more poll: exactly one result.
    let reply = server_stream.wr.take_all();
    assert_eq!(reply, vec![0x16]);
    match &mut ch {
        Handshake::Start(s) => s.rd.push(&reply),
        _ => panic!("client handshake should still be in progress"),
    }
    assert!(matches!(ch.poll(), Ok(Async::Ready(_))));
    assert!(ch.is_done());
}

#[test]
fn setup_failure_surfaces_on_first_poll() {
    let err = TlsError::Fatal(FatalKind::Setup);
    let mut hs: Handshake<FakeSession> = Handshake::new(Err(err));
    match hs.poll() {
        Err(e) => assert_eq!(e, err),
        Ok(_) => panic!("a failed setup must not yield a stream"),
    }
    assert!(hs.is_done());
}

#[test]
fn eof_mid_handshake_is_unexpected_eof() {
    let client = FakeSession::new(1, vec![7], Vec::new());
    let mut hs = Handshake::new(Ok(TlsStream::new(client)));
    match &mut hs {
        // The transport delivers a zero-length read: closed with no data.
        Handshake::Start(s) => s.rd.close(),
        _ => panic!("handshake should be in progress"),
    }
    match hs.poll() {
        Err(TlsError::UnexpectedEof) => {}
        other => panic!("expected the unexpected-eof failure, got {:?}", other.is_ok()),
    }
    assert!(hs.is_done());
}

#[test]
fn alternating_would_blocks_then_completes() {
    for n in 0usize..=50 {
        let client = FakeSession::new(1, vec![9], Vec::new());
        let mut hs = Handshake::new(Ok(TlsStream::new(client)));
        // Emit the hello first so that later polls find nothing to do.
        assert!(matches!(hs.poll(), Ok(Async::NotReady)));
        let hello = match &mut hs {
            Handshake::Start(s) => s.wr.take_all(),
            _ => panic!("handshake should be in progress"),
        };
        assert_eq!(hello, vec![9]);

        // n polls against a transport that alternates which direction
        // blocks: every one suspends, none errs, none resolves.
        for i in 0..n {
            match &mut hs {
                Handshake::Start(s) => {
                    s.rd.set_ready(i % 2 == 0);
                    s.wr.set_ready(i % 2 == 1);
                }
                _ => panic!("handshake should still be in progress"),
            }
            assert!(matches!(hs.poll(), Ok(Async::NotReady)));
        }

        // Once the peer's byte arrives, one more poll finishes: n + 1
        // suspended polls needed n + 1 re-polls and no more.
        match &mut hs {
            Handshake::Start(s) => {
                s.rd.set_ready(true);
                s.wr.set_ready(true);
                s.rd.push(&vec![1]);
            }
            _ => panic!("handshake should still be in progress"),
        }
        assert!(matches!(hs.poll(), Ok(Async::Ready(_))));
    }
}

#[test]
fn round_trip_identity_payloads() {
    // Larger than one pump chunk (4096) to force several pump rounds.
    let payloads: [Vec<u8>; 3] = [
        Vec::new(),
        vec![0xab],
        (0..10000u32).map(|i| (i % 251) as u8).collect(),
    ];
    for payload in payloads.iter() {
        let mut a = established_stream();
        let mut b = established_stream();

        let taken = a.write(payload).expect("write cannot fail");
        assert_eq!(taken, payload.len());
        a.flush().expect("flush over a ready transport cannot block");

        shuttle(&mut a, &mut b);
        let got = read_all(&mut b);
        assert_eq!(&got, payload, "payload of {} bytes must survive", payload.len());
    }
}

#[test]
fn read_sees_eof_after_peer_close() {
    let mut b = established_stream();
    b.rd.close();
    let got = b.read(1024).expect("eof is a result, not an error");
    assert!(got.is_empty());
}

#[test]
fn flush_then_shutdown_completes_in_one_call() {
    let mut a = established_stream();
    let payload = vec![1, 2, 3];
    a.write(&payload).expect("write cannot fail");
    a.flush().expect("flush over a ready transport cannot block");
    match a.shutdown() {
        Ok(Async::Ready(())) => {}
        _ => panic!("shutdown over a ready transport must finish at once"),
    }
    assert!(a.wr.closed());
    assert!(a.session().close_was_queued());
    // Shutting down again is idempotent: success, never a crash.
    match a.shutdown() {
        Ok(Async::Ready(())) => {}
        _ => panic!("a second shutdown must report success again"),
    }
}

#[test]
fn shutdown_resumes_after_block() {
    let mut a = established_stream();
    a.write(&vec![5u8; 16]).expect("write cannot fail");
    a.wr.set_ready(false);
    match a.shutdown() {
        Ok(Async::NotReady) => {}
        _ => panic!("shutdown against a blocked transport must suspend"),
    }
    assert!(!a.wr.closed());
    a.wr.set_ready(true);
    match a.shutdown() {
        Ok(Async::Ready(())) => {}
        _ => panic!("shutdown must resume and finish once the transport is ready"),
    }
    assert!(a.wr.closed());
}

#[test]
fn write_pumps_pending_output_first() {
    let mut a = established_stream();
    a.write(&vec![1, 2]).expect("write cannot fail");
    // The first write found nothing pending; the records it produced are
    // still queued in the session.
    assert_eq!(a.wr.pending_len(), 0);
    // The second write first pumps that pending output to the transport.
    a.write(&vec![3]).expect("write cannot fail");
    assert_eq!(a.wr.take_all(), vec![1, 2]);
    a.flush().expect("flush over a ready transport cannot block");
    assert_eq!(a.wr.take_all(), vec![3]);
}

#[test]
fn malformed_records_fail_fatally() {
    let mut b = established_stream();
    b.session_mut().fail_next();
    b.rd.push(&vec![1, 2, 3]);
    match b.read(1024) {
        Err(TlsError::Fatal(FatalKind::Protocol)) => {}
        other => panic!("expected the protocol failure, got ok={:?}", other.is_ok()),
    }
}

#[test]
fn write_blocked_transport_keeps_bytes_queued() {
    let mut a = established_stream();
    a.wr.set_ready(false);
    a.write(&vec![8u8; 4]).expect("write cannot fail");
    match a.flush() {
        Err(TlsError::WouldBlock) => {}
        _ => panic!("flush against a blocked transport must report would-block"),
    }
    a.wr.set_ready(true);
    a.flush().expect("flush must succeed once the transport is ready");
    assert_eq!(a.wr.take_all(), vec![8u8; 4]);
}
