use vstd::prelude::*;
use crate::chan::cap_len;
use crate::err::TlsError;

verus! {

/// The abstract state of a TLS engine's session, as far as the record pump
/// and the established stream reason about it.
pub ghost struct SessionModel {
    /// Whether the session wants more raw bytes from the transport.
    pub wants_read: bool,
    /// A measure of the raw output the session has queued for the transport:
    /// zero exactly when nothing is queued, and each call that drains output
    /// lowers it by exactly the number of bytes handed out.
    pub backlog: nat,
    /// Whether the session is still negotiating.
    pub handshaking: bool,
    /// The plaintext the session has decrypted and not yet handed out,
    /// oldest byte first.
    pub plain_in: Seq<u8>,
    /// Every plaintext byte the session has accepted for the peer so far,
    /// in order: the write-side history the stream's contracts speak of.
    pub taken: Seq<u8>,
    /// Whether the session's own closure message has been queued.
    pub close_queued: bool,
    /// Whether record processing has failed for good: once true, the
    /// session is unusable and every further processing step reports the
    /// failure again.
    pub poisoned: bool,
}

impl SessionModel {
    /// Whether the session has raw output queued for the transport.
    pub open spec fn wants_write(self) -> bool {
        self.backlog > 0
    }
}

/// The capability an underlying TLS engine must offer: an opaque state
/// machine over raw record bytes in, raw record bytes out, and plaintext on
/// the inside.
///
/// The contract speaks over [`SessionModel`], the abstract state of the
/// session. The desire flags are tied exactly to the model; the mutating
/// operations promise only what holds of every sound engine — an engine may
/// otherwise move its flags freely, and the pump re-queries them after every
/// step.
pub trait Session: Sized {
    /// The abstract state of this session.
    spec fn model(&self) -> SessionModel;

    /// Whether the session wants more raw bytes from the transport.
    fn wants_read(&self) -> (r: bool)
        ensures
            r == self.model().wants_read,
    ;

    /// Whether the session has raw output queued for the transport.
    fn wants_write(&self) -> (r: bool)
        ensures
            r == self.model().wants_write(),
    ;

    /// Whether the session is still negotiating.
    fn is_handshaking(&self) -> (r: bool)
        ensures
            r == self.model().handshaking,
    ;

    /// Feeds raw bytes from the transport into the session's record buffer;
    /// returns how many of them the session accepted. Feeding does not yet
    /// interpret the bytes: everything observable but the record buffer —
    /// the plaintext on hand, the handshake phase, the queued output, the
    /// wish for more input, the write history, the closure mark and the
    /// failure mark — is unchanged until [`Session::process_packets`] runs.
    fn read_tls(&mut self, buf: &Vec<u8>) -> (r: Result<usize, TlsError>)
        ensures
            r matches Ok(n) ==> n <= buf@.len(),
            final(self).model().plain_in == old(self).model().plain_in,
            final(self).model().handshaking == old(self).model().handshaking,
            final(self).model().backlog == old(self).model().backlog,
            final(self).model().wants_read == old(self).model().wants_read,
            final(self).model().taken == old(self).model().taken,
            final(self).model().close_queued == old(self).model().close_queued,
            final(self).model().poisoned == old(self).model().poisoned,
            r matches Err(e) ==> e.is_fatal(),
    ;

    /// Interprets the record bytes fed so far: decrypted application data is
    /// appended to the plaintext on hand, handshake messages advance the
    /// negotiation, and a malformed or hostile record poisons the session —
    /// the step succeeds exactly when the session is not poisoned afterward,
    /// and a poisoned session never recovers.
    fn process_packets(&mut self) -> (r: Result<(), TlsError>)
        ensures
            old(self).model().plain_in.is_prefix_of(final(self).model().plain_in),
            (r is Ok) == !final(self).model().poisoned,
            old(self).model().poisoned ==> final(self).model().poisoned,
            final(self).model().taken == old(self).model().taken,
            final(self).model().close_queued == old(self).model().close_queued,
            r matches Err(e) ==> e.is_fatal(),
    ;

    /// Hands out a batch of the raw bytes the session has queued for the
    /// transport, oldest first. The batch is non-empty exactly when output
    /// was queued, and the backlog falls by exactly the bytes handed out;
    /// everything else about the session stays as it was.
    fn write_tls_out(&mut self) -> (r: Vec<u8>)
        ensures
            (r@.len() > 0) == old(self).model().wants_write(),
            old(self).model().wants_write() ==> final(self).model().backlog < old(
                self,
            ).model().backlog,
            r@.len() as int == old(self).model().backlog - final(self).model().backlog,
            final(self).model().plain_in == old(self).model().plain_in,
            final(self).model().handshaking == old(self).model().handshaking,
            old(self).model().wants_read ==> final(self).model().wants_read,
            final(self).model().taken == old(self).model().taken,
            final(self).model().close_queued == old(self).model().close_queued,
            final(self).model().poisoned == old(self).model().poisoned,
    ;

    /// Hands out up to `max` bytes of the plaintext on hand, oldest first.
    fn read_plain(&mut self, max: usize) -> (r: Vec<u8>)
        ensures
            r@.len() == cap_len(max as int, old(self).model().plain_in.len() as int),
            r@ == old(self).model().plain_in.take(r@.len() as int),
            final(self).model().plain_in == old(self).model().plain_in.skip(r@.len() as int),
            final(self).model().handshaking == old(self).model().handshaking,
            final(self).model().backlog == old(self).model().backlog,
            final(self).model().taken == old(self).model().taken,
            final(self).model().close_queued == old(self).model().close_queued,
            final(self).model().poisoned == old(self).model().poisoned,
    ;

    /// Hands plaintext to the session for encryption; returns how many bytes
    /// the session took (an engine may take fewer when its output buffer is
    /// at its limit, and none while it refuses early data). Exactly the
    /// accepted prefix joins the session's write history.
    fn write_plain(&mut self, data: &Vec<u8>) -> (r: usize)
        ensures
            r <= data@.len(),
            final(self).model().taken == old(self).model().taken + data@.take(r as int),
            final(self).model().plain_in == old(self).model().plain_in,
            final(self).model().handshaking == old(self).model().handshaking,
            old(self).model().wants_write() ==> final(self).model().wants_write(),
            final(self).model().close_queued == old(self).model().close_queued,
            final(self).model().poisoned == old(self).model().poisoned,
    ;

    /// Completes the session's own flush of buffered plaintext into records.
    fn flush_plain(&mut self) -> (r: Result<(), TlsError>)
        ensures
            r is Ok,
            final(self).model().plain_in == old(self).model().plain_in,
            final(self).model().handshaking == old(self).model().handshaking,
            final(self).model().backlog == old(self).model().backlog,
            final(self).model().taken == old(self).model().taken,
            final(self).model().close_queued == old(self).model().close_queued,
            final(self).model().poisoned == old(self).model().poisoned,
    ;

    /// Queues the session's own closure message for the peer.
    fn send_close_notify(&mut self)
        ensures
            final(self).model().close_queued,
            final(self).model().plain_in == old(self).model().plain_in,
            final(self).model().taken == old(self).model().taken,
            final(self).model().poisoned == old(self).model().poisoned,
    ;
}

} // verus!
