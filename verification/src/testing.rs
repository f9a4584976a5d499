use vstd::prelude::*;
use crate::driver::{Attempt, HsSession};
use crate::err::{FatalKind, TlsError};
use crate::session::{Session, SessionModel};
use crate::util::{vec_extend, vec_prefix, vec_suffix};
use crate::chan::cap_len;

verus! {

/// A scripted self-buffering engine for exercising [`crate::MidHandshake`]:
/// its handshake attempt is interrupted a fixed number of times and then
/// resolves as scripted, yielding an established [`FakeSession`] on success.
pub struct FakeHsSession {
    interruptions: u64,
    failure: Option<TlsError>,
    result: FakeSession,
}

impl FakeHsSession {
    /// A session whose attempts will be interrupted `interruptions` times
    /// and then resolve: with `failure` when one is scripted, else with
    /// `result` as the established session.
    pub fn new(interruptions: u64, failure: Option<TlsError>, result: FakeSession) -> (r:
        FakeHsSession)
        ensures
            r.steps() == interruptions as nat,
            r.verdict() == failure,
    {
        FakeHsSession { interruptions, failure, result }
    }
}

impl HsSession for FakeHsSession {
    type Done = FakeSession;

    closed spec fn steps(&self) -> nat {
        self.interruptions as nat
    }

    closed spec fn verdict(&self) -> Option<TlsError> {
        self.failure
    }

    fn attempt(self) -> (r: Attempt<FakeHsSession, FakeSession>) {
        if self.interruptions > 0 {
            Attempt::Interrupted(
                FakeHsSession {
                    interruptions: self.interruptions - 1,
                    failure: self.failure,
                    result: self.result,
                },
            )
        } else {
            match self.failure {
                None => Attempt::Complete(self.result),
                Some(e) => Attempt::Fatal(e),
            }
        }
    }
}

/// The full abstract state of a [`FakeSession`], for stating its behaviour
/// exactly: the spec transitions below say what each operation does to it,
/// and the session's operations promise to follow them.
pub ghost struct FakeModel {
    /// Raw bytes still required from the peer to finish the handshake.
    pub need: nat,
    /// Raw bytes queued for the peer the moment the handshake completes.
    pub reply: Seq<u8>,
    /// Raw bytes taken in and not yet processed.
    pub staged: Seq<u8>,
    /// Plaintext on hand, oldest byte first.
    pub plain: Seq<u8>,
    /// Raw bytes queued for the peer.
    pub out: Seq<u8>,
    /// Whether the next processing step is scripted to fail.
    pub fail: bool,
}

/// Taking raw bytes in merely stages them.
pub open spec fn fake_read_tls(m: FakeModel, buf: Seq<u8>) -> FakeModel {
    FakeModel { staged: m.staged + buf, ..m }
}

/// Processing consumes staged bytes into handshake progress first; once
/// nothing more is owed, the scripted reply is queued and the remaining
/// staged bytes become plaintext, unchanged — the identity cipher.
pub open spec fn fake_process(m: FakeModel) -> FakeModel {
    let k = cap_len(m.need as int, m.staged.len() as int);
    let rest = m.staged.skip(k);
    if m.need - k == 0 {
        FakeModel {
            need: 0,
            reply: Seq::empty(),
            staged: Seq::empty(),
            plain: m.plain + rest,
            out: m.out + m.reply,
            ..m
        }
    } else {
        FakeModel { need: (m.need - k) as nat, staged: rest, ..m }
    }
}

/// Handing raw output out empties the queue in one batch.
pub open spec fn fake_write_tls(m: FakeModel) -> FakeModel {
    FakeModel { out: Seq::empty(), ..m }
}

/// Writing plaintext queues it for the peer unchanged — the identity
/// cipher.
pub open spec fn fake_write_plain(m: FakeModel, data: Seq<u8>) -> FakeModel {
    FakeModel { out: m.out + data, ..m }
}

/// Reading plaintext takes the oldest bytes first.
pub open spec fn fake_read_plain(m: FakeModel, max: nat) -> FakeModel {
    FakeModel { plain: m.plain.skip(cap_len(max as int, m.plain.len() as int)), ..m }
}

/// A scripted TLS engine for exercising the drivers and the stream without
/// real cryptography.
///
/// Its handshake is a fixed exchange: the session starts with `hello` queued
/// for the peer, and negotiation completes once `need` raw bytes have come
/// in from the peer and been processed; at that moment `reply` is queued for
/// the peer as well. Once established, the "cipher" is the identity: raw
/// bytes in become plaintext out unchanged, and plaintext written becomes
/// raw output unchanged.
pub struct FakeSession {
    need: usize,
    reply: Vec<u8>,
    staged: Vec<u8>,
    plain: Vec<u8>,
    out: Vec<u8>,
    fail: bool,
    sent_close: bool,
    taken: Ghost<Seq<u8>>,
}

impl FakeSession {
    /// The full abstract state of this session.
    pub closed spec fn fm(self) -> FakeModel {
        FakeModel {
            need: self.need as nat,
            reply: self.reply@,
            staged: self.staged@,
            plain: self.plain@,
            out: self.out@,
            fail: self.fail,
        }
    }

    /// Whether the next processing step is scripted to fail.
    pub closed spec fn will_fail(self) -> bool {
        self.fail
    }

    /// Whether the session's closure message has been requested.
    pub closed spec fn close_queued(self) -> bool {
        self.sent_close
    }

    /// A session that still must receive `need` bytes to finish its
    /// handshake, starts with `hello` queued for the peer, and queues
    /// `reply` the moment the handshake completes.
    pub fn new(need: usize, hello: Vec<u8>, reply: Vec<u8>) -> (r: FakeSession)
        ensures
            r.model() == (SessionModel {
                wants_read: true,
                backlog: hello@.len() as nat,
                handshaking: need > 0,
                plain_in: Seq::<u8>::empty(),
                taken: Seq::<u8>::empty(),
                close_queued: false,
                poisoned: false,
            }),
            !r.will_fail(),
            !r.close_queued(),
            r.fm() == (FakeModel {
                need: need as nat,
                reply: reply@,
                staged: Seq::<u8>::empty(),
                plain: Seq::<u8>::empty(),
                out: hello@,
                fail: false,
            }),
    {
        let r = FakeSession {
            need,
            reply,
            staged: Vec::new(),
            plain: Vec::new(),
            out: hello,
            fail: false,
            sent_close: false,
            taken: Ghost(Seq::empty()),
        };
        proof {
            assert(r.plain@ =~= Seq::<u8>::empty());
            assert(r.staged@ =~= Seq::<u8>::empty());
        }
        r
    }

    /// Scripts the next processing step to fail with a protocol error,
    /// as a hostile or malformed record would.
    pub fn fail_next(&mut self)
        ensures
            final(self).model() == (SessionModel { poisoned: true, ..old(self).model() }),
            final(self).will_fail(),
            final(self).fm() == (FakeModel { fail: true, ..old(self).fm() }),
            final(self).close_queued() == old(self).close_queued(),
    {
        self.fail = true;
    }

    /// Exec query for [`FakeSession::close_queued`].
    pub fn close_was_queued(&self) -> (r: bool)
        ensures
            r == self.close_queued(),
    {
        self.sent_close
    }
}

impl Session for FakeSession {
    closed spec fn model(&self) -> SessionModel {
        SessionModel {
            wants_read: self.plain@.len() == 0,
            backlog: self.out@.len() as nat,
            handshaking: self.need > 0,
            plain_in: self.plain@,
            taken: self.taken@,
            close_queued: self.sent_close,
            poisoned: self.fail,
        }
    }

    fn wants_read(&self) -> (r: bool) {
        self.plain.len() == 0
    }

    fn wants_write(&self) -> (r: bool) {
        self.out.len() > 0
    }

    fn is_handshaking(&self) -> (r: bool) {
        self.need > 0
    }

    fn read_tls(&mut self, buf: &Vec<u8>) -> (r: Result<usize, TlsError>)
        ensures
            r matches Ok(n) && n == buf@.len(),
            final(self).fm() == fake_read_tls(old(self).fm(), buf@),
    {
        vec_extend(&mut self.staged, buf);
        Ok(buf.len())
    }

    fn process_packets(&mut self) -> (r: Result<(), TlsError>)
        ensures
            old(self).fm().fail ==> (r matches Err(e) && e == TlsError::Fatal(FatalKind::Protocol))
                && final(self).fm() == old(self).fm(),
            !old(self).fm().fail ==> r is Ok && final(self).fm() == fake_process(old(self).fm()),
    {
        if self.fail {
            return Err(TlsError::Fatal(FatalKind::Protocol));
        }
        let k = if self.need <= self.staged.len() {
            self.need
        } else {
            self.staged.len()
        };
        self.need = self.need - k;
        let rest = vec_suffix(&self.staged, k);
        self.staged = rest;
        if self.need == 0 {
            let mut reply: Vec<u8> = Vec::new();
            std::mem::swap(&mut self.reply, &mut reply);
            vec_extend(&mut self.out, &reply);
            let mut staged: Vec<u8> = Vec::new();
            std::mem::swap(&mut self.staged, &mut staged);
            vec_extend(&mut self.plain, &staged);
        }
        Ok(())
    }

    fn write_tls_out(&mut self) -> (r: Vec<u8>)
        ensures
            r@ == old(self).fm().out,
            final(self).fm() == fake_write_tls(old(self).fm()),
    {
        let mut out: Vec<u8> = Vec::new();
        std::mem::swap(&mut self.out, &mut out);
        out
    }

    fn read_plain(&mut self, max: usize) -> (r: Vec<u8>)
        ensures
            r@ == old(self).fm().plain.take(
                cap_len(max as int, old(self).fm().plain.len() as int),
            ),
            final(self).fm() == fake_read_plain(old(self).fm(), max as nat),
    {
        let k = if max <= self.plain.len() {
            max
        } else {
            self.plain.len()
        };
        let out = vec_prefix(&self.plain, k);
        let rest = vec_suffix(&self.plain, k);
        self.plain = rest;
        out
    }

    fn write_plain(&mut self, data: &Vec<u8>) -> (r: usize)
        ensures
            r == data@.len(),
            final(self).fm() == fake_write_plain(old(self).fm(), data@),
    {
        vec_extend(&mut self.out, data);
        let n = data.len();
        self.taken = Ghost(self.taken@ + data@.take(n as int));
        proof {
            assert(self.taken@ =~= old(self).taken@ + data@);
        }
        n
    }

    fn flush_plain(&mut self) -> (r: Result<(), TlsError>)
        ensures
            final(self).fm() == old(self).fm(),
    {
        Ok(())
    }

    fn send_close_notify(&mut self)
        ensures
            final(self).fm() == old(self).fm(),
    {
        self.sent_close = true;
    }
}

/// An established scripted session with nothing in flight.
pub open spec fn fake_idle() -> FakeModel {
    FakeModel {
        need: 0,
        reply: Seq::empty(),
        staged: Seq::empty(),
        plain: Seq::empty(),
        out: Seq::empty(),
        fail: false,
    }
}

/// Round trip through a pair of established scripted engines: whatever
/// plaintext one side writes is queued for the peer unchanged, handing it
/// out empties the queue, and the peer, after taking those raw bytes in
/// and processing them, holds exactly the original payload as plaintext —
/// for every payload.
pub proof fn law_identity_round_trip(payload: Seq<u8>)
    ensures
        ({
            let sender = fake_write_plain(fake_idle(), payload);
            let wire = sender.out;
            let receiver = fake_process(fake_read_tls(fake_idle(), wire));
            &&& wire == payload
            &&& fake_write_tls(sender).out == Seq::<u8>::empty()
            &&& receiver.plain == payload
            &&& receiver.plain.take(payload.len() as int) == payload
        }),
{
    let sender = fake_write_plain(fake_idle(), payload);
    assert(sender.out =~= payload);
    let staged = fake_read_tls(fake_idle(), sender.out);
    assert(staged.staged =~= payload);
    let receiver = fake_process(staged);
    assert(receiver.plain =~= payload);
    assert(receiver.plain.take(payload.len() as int) =~= payload);
}

} // verus!
