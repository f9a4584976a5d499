use vstd::prelude::*;
use crate::chan::{cap_len, ChanBuf};
use crate::err::{Async, TlsError};
use crate::session::Session;

verus! {

/// How many raw bytes the pump offers the session at a time.
const READ_CHUNK: usize = 4096;

/// An established (or establishing) TLS connection: a session together with
/// the two transport directions it is pumped against.
///
/// `rd` carries raw bytes arriving from the peer, `wr` raw bytes leaving for
/// the peer; whatever fills and drains those channels (a test, or the glue
/// around a socket) is the transport. `eof` records that the incoming
/// direction ended: it distinguishes "no more raw bytes right now" from
/// "the peer will never send more".
pub struct TlsStream<S: Session> {
    /// The engine session carrying the cryptographic state.
    pub session: S,
    /// Raw bytes from the peer, with the read-direction readiness signals.
    pub rd: ChanBuf,
    /// Raw bytes for the peer, with the write-direction readiness signals.
    pub wr: ChanBuf,
    /// Whether the incoming direction has delivered its end-of-stream.
    pub eof: bool,
    /// Whether shutdown has begun: the session's closure message is queued.
    pub close_sent: bool,
}

/// What one run of the record pump may do to a stream and nothing else:
/// consume a prefix of the incoming channel, append behind the outgoing
/// one, extend the decrypted plaintext, raise (never clear) the
/// end-of-stream and poisoned marks, and leave the readiness signals, the
/// shutdown mark, the write history and the closure mark alone.
pub open spec fn pump_frame<S: Session>(pre: TlsStream<S>, post: TlsStream<S>) -> bool {
    &&& post.close_sent == pre.close_sent
    &&& (pre.eof ==> post.eof)
    &&& pre.wr@.is_prefix_of(post.wr@)
    &&& post.wr.is_ready() == pre.wr.is_ready()
    &&& post.wr.is_closed() == pre.wr.is_closed()
    &&& post.rd.is_ready() == pre.rd.is_ready()
    &&& post.rd.is_closed() == pre.rd.is_closed()
    &&& post.rd@.len() <= pre.rd@.len()
    &&& post.rd@ == pre.rd@.skip(pre.rd@.len() - post.rd@.len())
    &&& pre.session.model().plain_in.is_prefix_of(post.session.model().plain_in)
    &&& post.session.model().taken == pre.session.model().taken
    &&& post.session.model().close_queued == pre.session.model().close_queued
    &&& (pre.session.model().poisoned ==> post.session.model().poisoned)
}

/// A stream is one pump run away from itself.
pub proof fn lemma_pump_frame_refl<S: Session>(s: TlsStream<S>)
    ensures
        pump_frame(s, s),
{
    assert(s.wr@.take(s.wr@.len() as int) =~= s.wr@);
    assert(s.rd@ =~= s.rd@.skip(0));
    assert(s.session.model().plain_in.take(s.session.model().plain_in.len() as int)
        =~= s.session.model().plain_in);
}

/// Access to the engine session under a stream, for inspection or for
/// engine-specific configuration. Interfering with the session's record
/// traffic can make the stream's own operations go awry.
pub trait TlsStreamExt<S> {
    /// A shared borrow of the underlying session.
    fn session(&self) -> &S;

    /// A mutable borrow of the underlying session.
    fn session_mut(&mut self) -> &mut S;
}

impl<S: Session> TlsStreamExt<S> for TlsStream<S> {
    fn session(&self) -> (r: &S)
        ensures
            *r == self.session,
    {
        &self.session
    }

    fn session_mut(&mut self) -> (r: &mut S)
        ensures
            *r == old(self).session,
            final(self).session == *final(r),
            final(self).rd == old(self).rd,
            final(self).wr == old(self).wr,
            final(self).eof == old(self).eof,
            final(self).close_sent == old(self).close_sent,
    {
        &mut self.session
    }
}

impl<S: Session> TlsStream<S> {
    /// Wraps a session, with both transport directions empty, ready and open.
    pub fn new(session: S) -> (r: TlsStream<S>)
        ensures
            r.session == session,
            r.rd@ == Seq::<u8>::empty(),
            r.rd.is_ready(),
            !r.rd.is_closed(),
            r.wr@ == Seq::<u8>::empty(),
            r.wr.is_ready(),
            !r.wr.is_closed(),
            !r.eof,
            !r.close_sent,
    {
        TlsStream {
            session,
            rd: ChanBuf::new(),
            wr: ChanBuf::new(),
            eof: false,
            close_sent: false,
        }
    }

    /// A shared borrow of the underlying session.
    pub fn get_ref(&self) -> (r: &S)
        ensures
            *r == self.session,
    {
        &self.session
    }

    /// A mutable borrow of the underlying session.
    pub fn get_mut(&mut self) -> (r: &mut S)
        ensures
            *r == old(self).session,
            final(self).session == *final(r),
            final(self).rd == old(self).rd,
            final(self).wr == old(self).wr,
            final(self).eof == old(self).eof,
            final(self).close_sent == old(self).close_sent,
    {
        &mut self.session
    }

    /// Moves the session's queued raw output into the outgoing channel while
    /// that direction would make progress: the channel grows by exactly the
    /// bytes the session's backlog shrinks by. When the direction is ready
    /// and open this drains the session completely.
    fn pump_writes(&mut self)
        ensures
            final(self).session.model().plain_in == old(self).session.model().plain_in,
            final(self).session.model().handshaking == old(self).session.model().handshaking,
            final(self).session.model().taken == old(self).session.model().taken,
            final(self).session.model().close_queued == old(self).session.model().close_queued,
            final(self).session.model().poisoned == old(self).session.model().poisoned,
            old(self).session.model().wants_read ==> final(self).session.model().wants_read,
            old(self).wr@.is_prefix_of(final(self).wr@),
            final(self).wr.is_ready() == old(self).wr.is_ready(),
            final(self).wr.is_closed() == old(self).wr.is_closed(),
            final(self).rd == old(self).rd,
            final(self).eof == old(self).eof,
            final(self).close_sent == old(self).close_sent,
            final(self).wr@.len() as int - old(self).wr@.len() as int
                == old(self).session.model().backlog - final(self).session.model().backlog,
            (old(self).wr.is_ready() && !old(self).wr.is_closed())
                ==> !final(self).session.model().wants_write(),
            !old(self).session.model().wants_write()
                ==> !final(self).session.model().wants_write(),
    {
        #[verifier::loop_isolation(false)]
        while self.session.wants_write() && self.wr.write_ready()
            invariant
                self.session.model().plain_in == old(self).session.model().plain_in,
                self.session.model().handshaking == old(self).session.model().handshaking,
                self.session.model().taken == old(self).session.model().taken,
                self.session.model().close_queued == old(self).session.model().close_queued,
                self.session.model().poisoned == old(self).session.model().poisoned,
                old(self).session.model().wants_read ==> self.session.model().wants_read,
                old(self).wr@.is_prefix_of(self.wr@),
                self.wr.is_ready() == old(self).wr.is_ready(),
                self.wr.is_closed() == old(self).wr.is_closed(),
                self.rd == old(self).rd,
                self.eof == old(self).eof,
                self.close_sent == old(self).close_sent,
                self.wr@.len() as int - old(self).wr@.len() as int
                    == old(self).session.model().backlog - self.session.model().backlog,
                !old(self).session.model().wants_write()
                    ==> !self.session.model().wants_write(),
            decreases self.session.model().backlog,
        {
            let ghost wr_before = self.wr@;
            let out = self.session.write_tls_out();
            self.wr.push(&out);
            proof {
                assert(old(self).wr@.is_prefix_of(self.wr@)) by {
                    assert(self.wr@ == wr_before + out@);
                    assert(self.wr@.take(old(self).wr@.len() as int) =~= old(self).wr@);
                }
            }
        }
    }

    /// One run of the record pump: moves raw bytes from the incoming channel
    /// into the session and the session's raw output into the outgoing
    /// channel, until the session wants nothing more that current readiness
    /// permits. `Ok` exactly when that state is reached; `WouldBlock` only
    /// while the session still wants record I/O; a fatal error only out of
    /// feeding and processing readable input, and surfaced whenever
    /// processing poisons the session. A zero-length read marks `eof` and
    /// is not itself an error.
    pub(crate) fn do_io(&mut self) -> (r: Result<(), TlsError>)
        ensures
            pump_frame(*old(self), *final(self)),
            r matches Ok(()) ==> !final(self).session.model().wants_write() && (final(self).eof
                || !final(self).session.model().wants_read),
            (!old(self).session.model().wants_write() && (old(self).eof
                || !old(self).session.model().wants_read)) ==> r matches Ok(()),
            r matches Err(e) ==> (e is WouldBlock ==> ((!final(self).eof
                && final(self).session.model().wants_read)
                || final(self).session.model().wants_write())),
            !old(self).session.model().poisoned && final(self).session.model().poisoned ==> (r
                matches Err(e) && e.is_fatal()),
            old(self).rd@.len() == 0 ==> final(self).session.model().handshaking
                == old(self).session.model().handshaking,
            (!old(self).rd.is_ready() || old(self).rd@.len() == 0) ==> !(r matches Err(e)
                && e.is_fatal()),
            (old(self).rd@.len() == 0 && old(self).rd.is_closed() && old(self).rd.is_ready()
                && old(self).session.model().wants_read && !old(self).eof) ==> final(self).eof,
            (!old(self).rd.is_ready() && !old(self).wr.is_ready()) ==> *final(self) == *old(self),
    {
        proof {
            lemma_pump_frame_refl(*old(self));
        }
        if !self.eof && self.rd.pending_len() == 0 && self.session.wants_read()
            && self.rd.read_ready() {
            // Readable with nothing pending means the channel is closed: the
            // zero-length read that marks end-of-stream.
            self.eof = true;
        }
        #[verifier::loop_isolation(false)]
        loop
            invariant
                pump_frame(*old(self), *self),
                (old(self).rd@.len() == 0 && old(self).rd.is_closed() && old(self).rd.is_ready()
                    && old(self).session.model().wants_read && !old(self).eof) ==> self.eof,
                old(self).rd@.len() == 0 ==> self.session.model().handshaking
                    == old(self).session.model().handshaking,
                (!old(self).rd.is_ready() && !old(self).wr.is_ready()) ==> *self == *old(self),
                (!old(self).session.model().wants_write() && (old(self).eof
                    || !old(self).session.model().wants_read)) ==> *self == *old(self),
                !old(self).session.model().poisoned ==> !self.session.model().poisoned,
            decreases self.rd@.len(), (if self.eof { 0int } else { 1int }),
                self.session.model().backlog,
        {
            if !self.eof && self.session.wants_read() && self.rd.read_ready() {
                if self.rd.pending_len() == 0 {
                    // Ready with nothing pending means the channel is closed:
                    // the zero-length read that marks end-of-stream.
                    self.eof = true;
                } else {
                    let chunk = self.rd.peek_to(READ_CHUNK);
                    let n = match self.session.read_tls(&chunk) {
                        Ok(n) => n,
                        Err(e) => {
                            return Err(e);
                        },
                    };
                    if n == 0 {
                        // The session accepted nothing; retry after the next
                        // readiness change rather than spinning.
                        return Err(TlsError::WouldBlock);
                    }
                    self.rd.consume(n);
                    proof {
                        assert(self.rd@ =~= old(self).rd@.skip(
                            old(self).rd@.len() - self.rd@.len(),
                        ));
                    }
                    let ghost plain_before = self.session.model().plain_in;
                    match self.session.process_packets() {
                        Ok(()) => {},
                        Err(e) => {
                            proof {
                                lemma_prefix_trans(
                                    old(self).session.model().plain_in,
                                    plain_before,
                                    self.session.model().plain_in,
                                );
                            }
                            return Err(e);
                        },
                    }
                    proof {
                        lemma_prefix_trans(
                            old(self).session.model().plain_in,
                            plain_before,
                            self.session.model().plain_in,
                        );
                    }
                }
            } else if self.session.wants_write() && self.wr.write_ready() {
                let ghost wr_before = self.wr@;
                let out = self.session.write_tls_out();
                self.wr.push(&out);
                proof {
                    assert(old(self).wr@.is_prefix_of(self.wr@)) by {
                        assert(self.wr@ == wr_before + out@);
                        assert(self.wr@.take(old(self).wr@.len() as int) =~= old(self).wr@);
                    }
                }
            } else if (!self.eof && self.session.wants_read()) || self.session.wants_write() {
                return Err(TlsError::WouldBlock);
            } else {
                return Ok(());
            }
        }
    }

    /// Reads decrypted plaintext, at most `max` bytes.
    ///
    /// Plaintext already on hand is returned as it stands, oldest byte
    /// first, without touching the transport. Otherwise one run of the
    /// record pump is given the chance to produce more; whatever comes back
    /// is the front of the decrypted stream — what stays on hand follows it
    /// — and a result shorter than `max` leaves nothing on hand. An empty
    /// result (under a positive `max`) means the peer's end of the stream
    /// was reached for good; `WouldBlock` is reported only with no
    /// plaintext on hand, and fatal pump errors pass through unchanged.
    pub fn read(&mut self, max: usize) -> (r: Result<Vec<u8>, TlsError>)
        ensures
            final(self).close_sent == old(self).close_sent,
            old(self).eof ==> final(self).eof,
            old(self).wr@.is_prefix_of(final(self).wr@),
            final(self).wr.is_ready() == old(self).wr.is_ready(),
            final(self).wr.is_closed() == old(self).wr.is_closed(),
            final(self).rd.is_ready() == old(self).rd.is_ready(),
            final(self).rd.is_closed() == old(self).rd.is_closed(),
            final(self).session.model().taken == old(self).session.model().taken,
            final(self).session.model().close_queued == old(self).session.model().close_queued,
            r matches Ok(v) ==> v@.len() <= max,
            r matches Ok(v) ==> old(self).session.model().plain_in.is_prefix_of(
                v@ + final(self).session.model().plain_in,
            ),
            r matches Ok(v) ==> (v@.len() < max
                ==> final(self).session.model().plain_in.len() == 0),
            old(self).session.model().plain_in.len() > 0 && max > 0 ==> ({
                &&& r matches Ok(v)
                &&& v@ == old(self).session.model().plain_in.take(
                    cap_len(max as int, old(self).session.model().plain_in.len() as int),
                )
                &&& final(self).session.model().plain_in
                    == old(self).session.model().plain_in.skip(
                    cap_len(max as int, old(self).session.model().plain_in.len() as int),
                )
                &&& final(self).rd == old(self).rd
                &&& final(self).wr == old(self).wr
                &&& final(self).eof == old(self).eof
            }),
            r matches Ok(v) && v@.len() == 0 && max > 0 ==> final(self).eof,
            old(self).eof && old(self).session.model().plain_in.len() == 0 ==> (r matches Ok(v)
                && v@.len() == 0),
            r matches Err(e) ==> (e is WouldBlock
                ==> final(self).session.model().plain_in.len() == 0),
            !old(self).session.model().poisoned && final(self).session.model().poisoned ==> (r
                matches Err(e) && e.is_fatal()),
    {
        proof {
            lemma_prefix_refl(old(self).session.model().plain_in);
        }
        let first = self.session.read_plain(max);
        if first.len() > 0 {
            proof {
                assert(first@ + self.session.model().plain_in
                    =~= old(self).session.model().plain_in);
            }
            return Ok(first);
        }
        if self.eof || max == 0 {
            proof {
                assert(first@ + self.session.model().plain_in
                    =~= old(self).session.model().plain_in);
            }
            return Ok(first);
        }
        match self.do_io() {
            Ok(()) => {},
            Err(e) => {
                if e.is_would_block() {
                    let ghost pumped = self.session.model().plain_in;
                    let recovered = self.session.read_plain(max);
                    if recovered.len() > 0 {
                        proof {
                            lemma_prefix_refl(pumped);
                            assert(recovered@ + self.session.model().plain_in =~= pumped);
                        }
                        return Ok(recovered);
                    }
                }
                return Err(e);
            },
        }
        let ghost pumped = self.session.model().plain_in;
        let second = self.session.read_plain(max);
        proof {
            lemma_prefix_refl(pumped);
            assert(second@ + self.session.model().plain_in =~= pumped);
        }
        if second.len() > 0 {
            Ok(second)
        } else if self.eof {
            Ok(second)
        } else {
            Err(TlsError::WouldBlock)
        }
    }

    /// Hands plaintext to the session for encryption, first moving any raw
    /// output already queued out to the transport while it is writable —
    /// on a ready, open transport, queued output does reach the outgoing
    /// channel before the new bytes are taken. Returns how many bytes the
    /// session took; exactly that prefix of `data` joins the session's
    /// write history, and the records built from it leave through
    /// [`TlsStream::flush`] or the next pump run.
    pub fn write(&mut self, data: &Vec<u8>) -> (r: Result<usize, TlsError>)
        ensures
            r is Ok,
            r matches Ok(n) ==> n <= data@.len(),
            r matches Ok(n) ==> final(self).session.model().taken
                == old(self).session.model().taken + data@.take(n as int),
            (old(self).session.model().wants_write() && old(self).wr.is_ready()
                && !old(self).wr.is_closed()) ==> final(self).wr@.len() > old(self).wr@.len(),
            final(self).session.model().plain_in == old(self).session.model().plain_in,
            final(self).session.model().handshaking == old(self).session.model().handshaking,
            final(self).session.model().close_queued == old(self).session.model().close_queued,
            final(self).session.model().poisoned == old(self).session.model().poisoned,
            old(self).wr@.is_prefix_of(final(self).wr@),
            final(self).wr.is_ready() == old(self).wr.is_ready(),
            final(self).wr.is_closed() == old(self).wr.is_closed(),
            final(self).rd == old(self).rd,
            final(self).eof == old(self).eof,
            final(self).close_sent == old(self).close_sent,
    {
        self.pump_writes();
        let n = self.session.write_plain(data);
        Ok(n)
    }

    /// Completes the session's flush and moves the resulting raw output to
    /// the transport: the outgoing channel grows by exactly the bytes the
    /// session's backlog shrinks by. `Ok` only once nothing remains queued
    /// in the session — everything queued at entry has then reached the
    /// channel; when the transport cannot take the rest right now,
    /// `WouldBlock`, and the caller retries after the next readiness
    /// change. On a transport that is ready and open this cannot block.
    pub fn flush(&mut self) -> (r: Result<(), TlsError>)
        ensures
            final(self).session.model().plain_in == old(self).session.model().plain_in,
            final(self).session.model().handshaking == old(self).session.model().handshaking,
            final(self).session.model().taken == old(self).session.model().taken,
            final(self).session.model().close_queued == old(self).session.model().close_queued,
            final(self).session.model().poisoned == old(self).session.model().poisoned,
            old(self).wr@.is_prefix_of(final(self).wr@),
            final(self).wr.is_ready() == old(self).wr.is_ready(),
            final(self).wr.is_closed() == old(self).wr.is_closed(),
            final(self).rd == old(self).rd,
            final(self).eof == old(self).eof,
            final(self).close_sent == old(self).close_sent,
            final(self).wr@.len() as int - old(self).wr@.len() as int
                == old(self).session.model().backlog - final(self).session.model().backlog,
            r matches Ok(()) ==> !final(self).session.model().wants_write(),
            r matches Ok(()) ==> final(self).wr@.len() as int == old(self).wr@.len()
                + old(self).session.model().backlog,
            old(self).wr.is_ready() && !old(self).wr.is_closed() ==> r matches Ok(()),
            r matches Err(e) ==> e is WouldBlock,
    {
        match self.session.flush_plain() {
            Ok(()) => {},
            Err(_) => {
                // The session's flush cannot fail; this arm is unreachable.
            },
        }
        self.pump_writes();
        if self.session.wants_write() {
            Err(TlsError::WouldBlock)
        } else {
            Ok(())
        }
    }

    /// Begins or resumes an orderly shutdown: queues the session's closure
    /// message once, moves the remaining raw output to the transport, and
    /// only then closes the outgoing direction. `Ready` means both steps
    /// are done; `NotReady` means raw output is still queued and the call
    /// must be repeated once the transport is writable again. Repeating the
    /// call after `Ready` is harmless and reports `Ready` again.
    pub fn shutdown(&mut self) -> (r: Result<Async<()>, TlsError>)
        ensures
            r is Ok,
            final(self).close_sent,
            !old(self).close_sent ==> final(self).session.model().close_queued,
            old(self).session.model().close_queued ==> final(self).session.model().close_queued,
            final(self).session.model().plain_in == old(self).session.model().plain_in,
            final(self).session.model().taken == old(self).session.model().taken,
            final(self).session.model().poisoned == old(self).session.model().poisoned,
            final(self).rd == old(self).rd,
            final(self).eof == old(self).eof,
            old(self).wr@.is_prefix_of(final(self).wr@),
            final(self).wr.is_ready() == old(self).wr.is_ready(),
            r matches Ok(a) && a is Ready ==> !final(self).session.model().wants_write()
                && final(self).wr.is_closed(),
            r matches Ok(a) && a is NotReady ==> final(self).session.model().wants_write()
                && final(self).wr.is_closed() == old(self).wr.is_closed(),
            old(self).wr.is_ready() && !old(self).wr.is_closed() ==> (r matches Ok(a)
                && a is Ready),
            !old(self).session.model().wants_write() && old(self).close_sent ==> (r matches Ok(a)
                && a is Ready),
    {
        if !self.close_sent {
            self.session.send_close_notify();
            self.close_sent = true;
        }
        self.pump_writes();
        if self.session.wants_write() {
            return Ok(Async::NotReady);
        }
        self.wr.close();
        Ok(Async::Ready(()))
    }
}

/// A prefix of a prefix is a prefix of the whole.
proof fn lemma_prefix_trans(a: Seq<u8>, b: Seq<u8>, c: Seq<u8>)
    requires
        a.is_prefix_of(b),
        b.is_prefix_of(c),
    ensures
        a.is_prefix_of(c),
{
    assert(a =~= c.take(a.len() as int));
}

/// A sequence is a prefix of itself.
proof fn lemma_prefix_refl(a: Seq<u8>)
    ensures
        a.is_prefix_of(a),
{
    assert(a.take(a.len() as int) =~= a);
}

} // verus!
