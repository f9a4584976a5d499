use vstd::prelude::*;
use crate::chan::cap_len;
use crate::err::{Async, FatalKind, TlsError};
use crate::handshake::Handshake;
use crate::session::{Session, SessionModel};
use crate::stream::{pump_frame, TlsStream};
use crate::Sealed;

verus! {

#[verifier::external_type_specification]
#[verifier::external_body]
/// Declares `rustls::ClientConfig` to the verifier as an opaque type.
pub struct ExClientConfig(rustls::ClientConfig);

#[verifier::external_type_specification]
#[verifier::external_body]
/// Declares `rustls::ServerConfig` to the verifier as an opaque type.
pub struct ExServerConfig(rustls::ServerConfig);

#[verifier::external_type_specification]
#[verifier::external_body]
/// Declares `rustls::Connection` to the verifier as an opaque type.
pub struct ExConnection(rustls::Connection);

/// What `rustls::CommonState::wants_read` returns for this connection state.
pub uninterp spec fn conn_wants_read(c: rustls::Connection) -> bool;

/// The amount of raw output `rustls` holds queued for the transport:
/// zero exactly when `rustls::CommonState::wants_write` is false.
pub uninterp spec fn conn_backlog(c: rustls::Connection) -> nat;

/// What `rustls::CommonState::is_handshaking` returns for this connection
/// state.
pub uninterp spec fn conn_handshaking(c: rustls::Connection) -> bool;

/// The plaintext the connection has decrypted and not yet handed out
/// through its reader, oldest byte first.
pub uninterp spec fn conn_plaintext(c: rustls::Connection) -> Seq<u8>;

/// Whether record processing has failed for good: `rustls` then holds the
/// error in place of its processing state, and every later
/// `process_new_packets` reports it again.
pub uninterp spec fn conn_poisoned(c: rustls::Connection) -> bool;

/// Relies on rustls::CommonState::wants_read: whether the connection wants
/// more raw bytes from the transport.
#[verifier::external_body]
fn rustls_wants_read(c: &rustls::Connection) -> (r: bool)
    ensures
        r == conn_wants_read(*c),
{
    c.wants_read()
}

/// Relies on rustls::CommonState::wants_write, which is true exactly when
/// raw output is queued.
#[verifier::external_body]
fn rustls_wants_write(c: &rustls::Connection) -> (r: bool)
    ensures
        r == (conn_backlog(*c) > 0),
{
    c.wants_write()
}

/// Relies on rustls::CommonState::is_handshaking.
#[verifier::external_body]
fn rustls_is_handshaking(c: &rustls::Connection) -> (r: bool)
    ensures
        r == conn_handshaking(*c),
{
    c.is_handshaking()
}

/// Relies on rustls::Connection::read_tls reading from a byte slice: it
/// buffers some prefix of the bytes for later processing, leaving the
/// decrypted plaintext, the handshake phase, the queued output, the wish
/// for more input and the processing state alone. The only error it
/// reports when fed from a slice is backpressure, raised before anything
/// is buffered.
#[verifier::external_body]
fn rustls_read_tls(c: &mut rustls::Connection, buf: &Vec<u8>) -> (r: Result<usize, TlsError>)
    ensures
        r matches Ok(n) ==> n <= buf@.len(),
        conn_plaintext(*final(c)) == conn_plaintext(*old(c)),
        conn_handshaking(*final(c)) == conn_handshaking(*old(c)),
        conn_backlog(*final(c)) == conn_backlog(*old(c)),
        conn_wants_read(*final(c)) == conn_wants_read(*old(c)),
        conn_poisoned(*final(c)) == conn_poisoned(*old(c)),
        r matches Err(e) ==> e.is_fatal(),
{
    let mut rd: &[u8] = buf.as_slice();
    match c.read_tls(&mut rd) {
        Ok(n) => Ok(n),
        Err(_) => Err(TlsError::Fatal(FatalKind::Transport)),
    }
}

/// Relies on rustls::Connection::process_new_packets: it interprets the
/// records buffered so far, appending the application data they carry to
/// the decrypted plaintext; an error is a fatal failure of the connection,
/// a certificate problem being told apart from the rest. It succeeds
/// exactly when the processing state is sound afterward, and a failed
/// state is kept and reported again on every later call.
#[verifier::external_body]
fn rustls_process(c: &mut rustls::Connection) -> (r: Result<(), TlsError>)
    ensures
        conn_plaintext(*old(c)).is_prefix_of(conn_plaintext(*final(c))),
        (r is Ok) == !conn_poisoned(*final(c)),
        conn_poisoned(*old(c)) ==> conn_poisoned(*final(c)),
        r matches Err(e) ==> e.is_fatal(),
{
    match c.process_new_packets() {
        Ok(_) => Ok(()),
        Err(rustls::Error::InvalidCertificate(_)) => Err(TlsError::Fatal(FatalKind::Certificate)),
        Err(_) => Err(TlsError::Fatal(FatalKind::Protocol)),
    }
}

/// Relies on rustls::Connection::write_tls writing into a Vec, which cannot
/// fail: it hands out a non-empty batch of the queued raw output exactly
/// when output is queued, strictly lowering what remains; the decrypted
/// plaintext and the handshake phase are untouched, and a connection that
/// wanted more input still wants it.
#[verifier::external_body]
fn rustls_write_tls(c: &mut rustls::Connection) -> (r: Vec<u8>)
    ensures
        (r@.len() > 0) == (conn_backlog(*old(c)) > 0),
        conn_backlog(*old(c)) > 0 ==> conn_backlog(*final(c)) < conn_backlog(*old(c)),
        r@.len() as int == conn_backlog(*old(c)) - conn_backlog(*final(c)),
        conn_plaintext(*final(c)) == conn_plaintext(*old(c)),
        conn_handshaking(*final(c)) == conn_handshaking(*old(c)),
        conn_wants_read(*old(c)) ==> conn_wants_read(*final(c)),
        conn_poisoned(*final(c)) == conn_poisoned(*old(c)),
{
    let mut out: Vec<u8> = Vec::new();
    let _ = c.write_tls(&mut out);
    out
}

/// Relies on rustls::Connection::reader and its read: it moves out exactly
/// the smaller of the buffer size and the decrypted plaintext on hand,
/// oldest bytes first (its would-block and end-of-stream reports both mean
/// "nothing on hand"), touching neither the handshake phase nor the queued
/// output.
#[verifier::external_body]
fn rustls_read_plain(c: &mut rustls::Connection, max: usize) -> (r: Vec<u8>)
    ensures
        r@.len() == cap_len(max as int, conn_plaintext(*old(c)).len() as int),
        r@ == conn_plaintext(*old(c)).take(r@.len() as int),
        conn_plaintext(*final(c)) == conn_plaintext(*old(c)).skip(r@.len() as int),
        conn_handshaking(*final(c)) == conn_handshaking(*old(c)),
        conn_backlog(*final(c)) == conn_backlog(*old(c)),
        conn_poisoned(*final(c)) == conn_poisoned(*old(c)),
{
    let mut buf = vec![0u8; max];
    match std::io::Read::read(&mut c.reader(), &mut buf) {
        Ok(n) => {
            buf.truncate(n);
            buf
        },
        Err(_) => Vec::new(),
    }
}

/// Relies on rustls::Connection::writer and its write, which cannot fail:
/// the engine takes some prefix of the bytes for encryption (buffering them
/// while the handshake still runs), leaving the decrypted plaintext and the
/// handshake phase alone and never discarding already-queued output.
#[verifier::external_body]
fn rustls_write_plain(c: &mut rustls::Connection, data: &Vec<u8>) -> (r: usize)
    ensures
        r <= data@.len(),
        conn_plaintext(*final(c)) == conn_plaintext(*old(c)),
        conn_handshaking(*final(c)) == conn_handshaking(*old(c)),
        conn_backlog(*old(c)) > 0 ==> conn_backlog(*final(c)) > 0,
        conn_poisoned(*final(c)) == conn_poisoned(*old(c)),
{
    match std::io::Write::write(&mut c.writer(), data.as_slice()) {
        Ok(n) => n,
        Err(_) => 0,
    }
}

/// Relies on rustls::Connection::writer and its flush, which does nothing
/// and cannot fail: plaintext handed to rustls is framed into records as it
/// is written, so nothing is left to flush.
#[verifier::external_body]
fn rustls_flush_plain(c: &mut rustls::Connection) -> (r: Result<(), TlsError>)
    ensures
        r is Ok,
        conn_plaintext(*final(c)) == conn_plaintext(*old(c)),
        conn_handshaking(*final(c)) == conn_handshaking(*old(c)),
        conn_backlog(*final(c)) == conn_backlog(*old(c)),
        conn_wants_read(*final(c)) == conn_wants_read(*old(c)),
        conn_poisoned(*final(c)) == conn_poisoned(*old(c)),
{
    let _ = std::io::Write::flush(&mut c.writer());
    Ok(())
}

/// Relies on rustls::CommonState::send_close_notify: it queues the
/// close-notify alert among the outgoing records, touching no plaintext.
#[verifier::external_body]
fn rustls_send_close_notify(c: &mut rustls::Connection)
    ensures
        conn_plaintext(*final(c)) == conn_plaintext(*old(c)),
        conn_poisoned(*final(c)) == conn_poisoned(*old(c)),
{
    c.send_close_notify()
}

/// Relies on rustls::ClientConfig::builder with its safe defaults, on
/// rustls::RootCertStore, and on webpki_roots::TLS_SERVER_ROOTS: a client
/// configuration trusting the bundled web roots.
#[verifier::external_body]
fn rustls_client_config() -> rustls::ClientConfig {
    let mut roots = rustls::RootCertStore::empty();
    roots.add_trust_anchors(
        webpki_roots::TLS_SERVER_ROOTS.iter().map(
            |ta|
                rustls::OwnedTrustAnchor::from_subject_spki_name_constraints(
                    ta.subject,
                    ta.spki,
                    ta.name_constraints,
                ),
        ),
    );
    rustls::ClientConfig::builder().with_safe_defaults().with_root_certificates(
        roots,
    ).with_no_client_auth()
}

/// Relies on rustls::ServerConfig::builder and with_single_cert: a server
/// configuration over one certificate chain (DER) and its private key
/// (DER); credentials the engine refuses are the setup failure.
#[verifier::external_body]
fn rustls_server_config(cert_der: &Vec<u8>, key_der: &Vec<u8>) -> (r: Result<
    rustls::ServerConfig,
    TlsError,
>)
    ensures
        r matches Err(e) ==> e == TlsError::Fatal(FatalKind::Setup),
{
    let certs = vec![rustls::Certificate(cert_der.clone())];
    let key = rustls::PrivateKey(key_der.clone());
    match rustls::ServerConfig::builder().with_safe_defaults().with_no_client_auth()
        .with_single_cert(certs, key) {
        Ok(cfg) => Ok(cfg),
        Err(_) => Err(TlsError::Fatal(FatalKind::Setup)),
    }
}

/// Relies on rustls::ServerName::try_from and rustls::ClientConnection::new:
/// a fresh client connection for `domain`, which starts negotiating at once
/// — its first flight is already queued, nothing is decrypted yet. A name
/// that is no valid server name, or a configuration the engine refuses, is
/// the setup failure.
#[verifier::external_body]
fn rustls_connect(cfg: rustls::ClientConfig, domain: &str) -> (r: Result<
    rustls::Connection,
    TlsError,
>)
    ensures
        r matches Ok(c) ==> conn_handshaking(c) && conn_plaintext(c) == Seq::<u8>::empty()
            && conn_backlog(c) > 0 && !conn_poisoned(c),
        r matches Err(e) ==> e == TlsError::Fatal(FatalKind::Setup),
{
    let name = match rustls::ServerName::try_from(domain) {
        Ok(n) => n,
        Err(_) => {
            return Err(TlsError::Fatal(FatalKind::Setup));
        },
    };
    match rustls::ClientConnection::new(std::sync::Arc::new(cfg), name) {
        Ok(c) => Ok(rustls::Connection::Client(c)),
        Err(_) => Err(TlsError::Fatal(FatalKind::Setup)),
    }
}

/// Relies on rustls::ServerConnection::new: a fresh server connection,
/// still negotiating, with nothing decrypted yet.
#[verifier::external_body]
fn rustls_accept(cfg: rustls::ServerConfig) -> (r: Result<rustls::Connection, TlsError>)
    ensures
        r matches Ok(c) ==> conn_handshaking(c) && conn_plaintext(c) == Seq::<u8>::empty()
            && !conn_poisoned(c),
        r matches Err(e) ==> e == TlsError::Fatal(FatalKind::Setup),
{
    match rustls::ServerConnection::new(std::sync::Arc::new(cfg)) {
        Ok(c) => Ok(rustls::Connection::Server(c)),
        Err(_) => Err(TlsError::Fatal(FatalKind::Setup)),
    }
}

/// A [`Session`] backed by a rustls connection, client or server side.
///
/// Beside the connection it carries two ghost observables the engine does
/// not expose as state: the history of plaintext accepted for the peer,
/// and whether the closure message has been queued. Both are maintained by
/// the verified method bodies below, not taken on trust.
pub struct RustlsSession {
    /// The engine connection under this session.
    pub conn: rustls::Connection,
    /// Ghost history of the plaintext accepted for the peer.
    pub taken: Ghost<Seq<u8>>,
    /// Ghost mark that the closure message has been queued.
    pub close_queued: Ghost<bool>,
}

impl Session for RustlsSession {
    open spec fn model(&self) -> SessionModel {
        SessionModel {
            wants_read: conn_wants_read(self.conn),
            backlog: conn_backlog(self.conn),
            handshaking: conn_handshaking(self.conn),
            plain_in: conn_plaintext(self.conn),
            taken: self.taken@,
            close_queued: self.close_queued@,
            poisoned: conn_poisoned(self.conn),
        }
    }

    fn wants_read(&self) -> (r: bool) {
        rustls_wants_read(&self.conn)
    }

    fn wants_write(&self) -> (r: bool) {
        rustls_wants_write(&self.conn)
    }

    fn is_handshaking(&self) -> (r: bool) {
        rustls_is_handshaking(&self.conn)
    }

    fn read_tls(&mut self, buf: &Vec<u8>) -> (r: Result<usize, TlsError>) {
        rustls_read_tls(&mut self.conn, buf)
    }

    fn process_packets(&mut self) -> (r: Result<(), TlsError>) {
        rustls_process(&mut self.conn)
    }

    fn write_tls_out(&mut self) -> (r: Vec<u8>) {
        rustls_write_tls(&mut self.conn)
    }

    fn read_plain(&mut self, max: usize) -> (r: Vec<u8>) {
        rustls_read_plain(&mut self.conn, max)
    }

    fn write_plain(&mut self, data: &Vec<u8>) -> (r: usize) {
        let n = rustls_write_plain(&mut self.conn, data);
        self.taken = Ghost(self.taken@ + data@.take(n as int));
        n
    }

    fn flush_plain(&mut self) -> (r: Result<(), TlsError>) {
        rustls_flush_plain(&mut self.conn)
    }

    fn send_close_notify(&mut self) {
        rustls_send_close_notify(&mut self.conn);
        self.close_queued = Ghost(true);
    }
}

/// Client-side context: which roots to trust and how to negotiate.
pub struct ClientContext {
    /// The engine-level configuration under this context.
    pub inner: rustls::ClientConfig,
}

/// Server-side context: the credentials to present and how to negotiate.
pub struct ServerContext {
    /// The engine-level configuration under this context.
    pub inner: rustls::ServerConfig,
}

impl Sealed for ClientContext {

}

impl Sealed for ServerContext {

}

impl ClientContext {
    /// A client context trusting the bundled web roots.
    pub fn new() -> (r: Result<ClientContext, TlsError>)
        ensures
            r is Ok,
    {
        Ok(ClientContext { inner: rustls_client_config() })
    }

    /// Starts a client handshake for `domain`: the returned driver is ready
    /// to be polled, holding either a stream whose session negotiates or
    /// the setup failure to surface on first poll.
    pub fn handshake(self, domain: &str) -> (r: ClientHandshake)
        ensures
            !r.inner.is_resolved(),
            r.inner matches Handshake::Start(s) ==> s.session.model().handshaking && !s.eof
                && !s.close_sent && s.rd@ == Seq::<u8>::empty() && s.wr@ == Seq::<u8>::empty(),
            r.inner matches Handshake::Failed(e) ==> e == TlsError::Fatal(FatalKind::Setup),
    {
        match rustls_connect(self.inner, domain) {
            Ok(conn) => ClientHandshake {
                inner: Handshake::new(
                    Ok(
                        TlsStream::new(
                            RustlsSession {
                                conn,
                                taken: Ghost(Seq::empty()),
                                close_queued: Ghost(false),
                            },
                        ),
                    ),
                ),
            },
            Err(e) => ClientHandshake { inner: Handshake::new(Err(e)) },
        }
    }
}

impl ServerContext {
    /// Starts a server handshake: the returned driver is ready to be
    /// polled, holding a stream whose session waits for the client's first
    /// flight.
    pub fn handshake(self) -> (r: ServerHandshake)
        ensures
            !r.inner.is_resolved(),
            r.inner matches Handshake::Start(s) ==> s.session.model().handshaking && !s.eof
                && !s.close_sent && s.rd@ == Seq::<u8>::empty() && s.wr@ == Seq::<u8>::empty(),
            r.inner matches Handshake::Failed(e) ==> e == TlsError::Fatal(FatalKind::Setup),
    {
        match rustls_accept(self.inner) {
            Ok(conn) => ServerHandshake {
                inner: Handshake::new(
                    Ok(
                        TlsStream::new(
                            RustlsSession {
                                conn,
                                taken: Ghost(Seq::empty()),
                                close_queued: Ghost(false),
                            },
                        ),
                    ),
                ),
            },
            Err(e) => ServerHandshake { inner: Handshake::new(Err(e)) },
        }
    }
}

/// Construction and configuration access for client contexts.
pub trait ClientContextExt {
    /// The engine-level configuration that will start the connection.
    fn config(&self) -> &rustls::ClientConfig;

    /// Mutable access to that configuration.
    fn config_mut(&mut self) -> &mut rustls::ClientConfig;
}

impl ClientContextExt for ClientContext {
    fn config(&self) -> (r: &rustls::ClientConfig)
        ensures
            *r == self.inner,
    {
        &self.inner
    }

    fn config_mut(&mut self) -> (r: &mut rustls::ClientConfig)
        ensures
            *r == old(self).inner,
            final(self).inner == *final(r),
    {
        &mut self.inner
    }
}

/// Construction and configuration access for server contexts.
pub trait ServerContextExt: Sized {
    /// A server context over one certificate chain (DER) and its private
    /// key (DER); credentials the engine refuses are the setup failure.
    fn new(cert_der: &Vec<u8>, key_der: &Vec<u8>) -> Result<Self, TlsError>;

    /// The engine-level configuration that will start the connection.
    fn config(&self) -> &rustls::ServerConfig;

    /// Mutable access to that configuration.
    fn config_mut(&mut self) -> &mut rustls::ServerConfig;
}

impl ServerContextExt for ServerContext {
    fn new(cert_der: &Vec<u8>, key_der: &Vec<u8>) -> (r: Result<ServerContext, TlsError>)
        ensures
            r matches Err(e) ==> e == TlsError::Fatal(FatalKind::Setup),
    {
        match rustls_server_config(cert_der, key_der) {
            Ok(cfg) => Ok(ServerContext { inner: cfg }),
            Err(e) => Err(e),
        }
    }

    fn config(&self) -> (r: &rustls::ServerConfig)
        ensures
            *r == self.inner,
    {
        &self.inner
    }

    fn config_mut(&mut self) -> (r: &mut rustls::ServerConfig)
        ensures
            *r == old(self).inner,
            final(self).inner == *final(r),
    {
        &mut self.inner
    }
}

/// A client-side handshake in progress against the rustls engine.
pub struct ClientHandshake {
    /// The driver holding the stream mid-negotiation.
    pub inner: Handshake<RustlsSession>,
}

impl ClientHandshake {
    /// Polls the underlying driver; see [`Handshake::poll`].
    pub fn poll(&mut self) -> (r: Result<Async<TlsStream<RustlsSession>>, TlsError>)
        requires
            !old(self).inner.is_resolved(),
        ensures
            old(self).inner matches Handshake::Failed(e) ==> r matches Err(e2) && e2 == e,
            r matches Err(_) ==> final(self).inner is Empty,
            r matches Ok(a) ==> (a matches Async::Ready(s) ==> ({
                &&& final(self).inner is Empty
                &&& !s.session.model().handshaking
                &&& old(self).inner matches Handshake::Start(st) && pump_frame(st, s)
            })),
            r matches Ok(a) && a is NotReady ==> ({
                &&& final(self).inner matches Handshake::Start(s)
                    && s.session.model().handshaking && !s.eof
                &&& old(self).inner matches Handshake::Start(st)
                    ==> (final(self).inner matches Handshake::Start(s2) && pump_frame(st, s2))
            }),
            old(self).inner matches Handshake::Start(st) ==> (st.session.model().handshaking || (
            r matches Ok(a) && (a matches Async::Ready(s) && s == st))),
            (old(self).inner matches Handshake::Start(st) && st.eof) ==> !(r matches Ok(a)
                && a is NotReady),
            (old(self).inner matches Handshake::Start(st) && st.session.model().handshaking
                && st.session.model().wants_read && !st.eof && st.rd.is_ready()
                && st.rd.is_closed() && st.rd@.len() == 0) ==> (r matches Err(e)
                && e == TlsError::UnexpectedEof),
            (old(self).inner matches Handshake::Start(st) && st.session.model().handshaking
                && !st.eof && !st.rd.is_ready() && !st.wr.is_ready()) ==> (r matches Ok(a)
                && a is NotReady && final(self).inner == old(self).inner),
    {
        self.inner.poll()
    }
}

/// A server-side handshake in progress against the rustls engine.
pub struct ServerHandshake {
    /// The driver holding the stream mid-negotiation.
    pub inner: Handshake<RustlsSession>,
}

impl ServerHandshake {
    /// Polls the underlying driver; see [`Handshake::poll`].
    pub fn poll(&mut self) -> (r: Result<Async<TlsStream<RustlsSession>>, TlsError>)
        requires
            !old(self).inner.is_resolved(),
        ensures
            old(self).inner matches Handshake::Failed(e) ==> r matches Err(e2) && e2 == e,
            r matches Err(_) ==> final(self).inner is Empty,
            r matches Ok(a) ==> (a matches Async::Ready(s) ==> ({
                &&& final(self).inner is Empty
                &&& !s.session.model().handshaking
                &&& old(self).inner matches Handshake::Start(st) && pump_frame(st, s)
            })),
            r matches Ok(a) && a is NotReady ==> ({
                &&& final(self).inner matches Handshake::Start(s)
                    && s.session.model().handshaking && !s.eof
                &&& old(self).inner matches Handshake::Start(st)
                    ==> (final(self).inner matches Handshake::Start(s2) && pump_frame(st, s2))
            }),
            old(self).inner matches Handshake::Start(st) ==> (st.session.model().handshaking || (
            r matches Ok(a) && (a matches Async::Ready(s) && s == st))),
            (old(self).inner matches Handshake::Start(st) && st.eof) ==> !(r matches Ok(a)
                && a is NotReady),
            (old(self).inner matches Handshake::Start(st) && st.session.model().handshaking
                && st.session.model().wants_read && !st.eof && st.rd.is_ready()
                && st.rd.is_closed() && st.rd@.len() == 0) ==> (r matches Err(e)
                && e == TlsError::UnexpectedEof),
            (old(self).inner matches Handshake::Start(st) && st.session.model().handshaking
                && !st.eof && !st.rd.is_ready() && !st.wr.is_ready()) ==> (r matches Ok(a)
                && a is NotReady && final(self).inner == old(self).inner),
    {
        self.inner.poll()
    }
}

} // verus!
