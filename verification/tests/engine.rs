use polled_tls::{
    Async, ClientContext, ClientContextExt, FatalKind, Handshake, RustlsSession, Sealed,
    ServerContext, ServerContextExt, TlsError,
};

fn sealed_marker<T: Sealed>(_: &T) {}

fn take_out(hs: &mut Handshake<RustlsSession>) -> Vec<u8> {
    match hs {
        Handshake::Start(s) => s.wr.take_all(),
        _ => Vec::new(),
    }
}

fn feed(hs: &mut Handshake<RustlsSession>, bytes: Vec<u8>) {
    if bytes.is_empty() {
        return;
    }
    if let Handshake::Start(s) = hs {
        s.rd.push(&bytes);
    }
}

#[test]
fn client_context_builds() {
    let ctx = ClientContext::new().expect("building a client context cannot fail");
    sealed_marker(&ctx);
    let _config = ctx.config();
}

#[test]
fn client_hello_is_emitted() {
    let ctx = ClientContext::new().expect("building a client context cannot fail");
    let mut hs = ctx.handshake("example.com");
    assert!(!hs.inner.is_done());
    match hs.poll() {
        Ok(Async::NotReady) => {}
        _ => panic!("a client alone cannot finish its handshake"),
    }
    let flight = match &mut hs.inner {
        Handshake::Start(s) => s.wr.take_all(),
        _ => panic!("the handshake should still be in progress"),
    };
    // A real first flight left the engine: a TLS handshake record.
    assert!(flight.len() > 5);
    assert_eq!(flight[0], 0x16);
}

#[test]
fn invalid_domain_fails_setup() {
    let ctx = ClientContext::new().expect("building a client context cannot fail");
    let mut hs = ctx.handshake("");
    match hs.poll() {
        Err(TlsError::Fatal(FatalKind::Setup)) => {}
        other => panic!("expected the setup failure, got ok={:?}", other.is_ok()),
    }
    assert!(hs.inner.is_done());
}

#[test]
fn garbage_records_fail_fatally() {
    let ctx = ClientContext::new().expect("building a client context cannot fail");
    let mut hs = ctx.handshake("example.com");
    assert!(matches!(hs.poll(), Ok(Async::NotReady)));
    match &mut hs.inner {
        Handshake::Start(s) => {
            s.wr.take_all();
            s.rd.push(&vec![0xff, 0xff, 0xff, 0xff, 0xff]);
        }
        _ => panic!("the handshake should still be in progress"),
    }
    let mut failed = false;
    for _ in 0..3 {
        match hs.poll() {
            Err(TlsError::Fatal(_)) | Err(TlsError::UnexpectedEof) => {
                failed = true;
                break;
            }
            Ok(Async::NotReady) => {}
            Ok(Async::Ready(_)) => panic!("garbage must not complete a handshake"),
            Err(TlsError::WouldBlock) => panic!("a poll never surfaces would-block"),
        }
        if hs.inner.is_done() {
            break;
        }
    }
    assert!(failed, "garbage records must fail the handshake");
}

#[test]
fn self_signed_peer_is_rejected() {
    let ck = rcgen::generate_simple_self_signed(vec!["localhost".to_string()])
        .expect("generating a throwaway certificate works");
    let cert_der: Vec<u8> = ck.cert.der().as_ref().to_vec();
    let key_der: Vec<u8> = ck.signing_key.serialize_der();
    let server_ctx =
        ServerContext::new(&cert_der, &key_der).expect("generated credentials are usable");
    let client_ctx = ClientContext::new().expect("building a client context cannot fail");

    let mut ch = client_ctx.handshake("localhost");
    let mut sh = server_ctx.handshake();

    // Drive both ends over an in-memory loopback. Nothing vouches for the
    // self-signed peer, so the client must fail on its certificate — a real
    // negotiation ran up to that point.
    for _ in 0..16 {
        match ch.poll() {
            Ok(Async::NotReady) => {}
            Err(TlsError::Fatal(FatalKind::Certificate)) => return,
            Err(e) => panic!("the failure must name the certificate, got {:?}", fatal_kind(e)),
            Ok(Async::Ready(_)) => panic!("a self-signed peer must not be trusted"),
        }
        let to_server = take_out(&mut ch.inner);
        feed(&mut sh.inner, to_server);
        match sh.poll() {
            Ok(Async::NotReady) => {}
            Ok(Async::Ready(_)) => panic!("the server cannot finish before the client"),
            Err(_) => panic!("the server side must not fail first"),
        }
        let to_client = take_out(&mut sh.inner);
        feed(&mut ch.inner, to_client);
    }
    panic!("the handshake never resolved");
}

fn fatal_kind(e: TlsError) -> &'static str {
    match e {
        TlsError::WouldBlock => "would-block",
        TlsError::UnexpectedEof => "unexpected eof",
        TlsError::Fatal(FatalKind::Certificate) => "certificate",
        TlsError::Fatal(FatalKind::Protocol) => "protocol",
        TlsError::Fatal(FatalKind::Transport) => "transport",
        TlsError::Fatal(FatalKind::Setup) => "setup",
    }
}

#[test]
fn server_context_rejects_garbage_credentials() {
    let cert = vec![1u8, 2, 3];
    let key = vec![4u8, 5, 6];
    match ServerContext::new(&cert, &key) {
        Err(TlsError::Fatal(FatalKind::Setup)) => {}
        Err(_) => panic!("unusable credentials are the setup failure"),
        Ok(_) => panic!("garbage credentials must be rejected"),
    }
}
