use vstd::prelude::*;
use crate::err::{Async, FatalKind, TlsError};
use crate::session::Session;
use crate::stream::{lemma_pump_frame_refl, pump_frame, TlsStream};

verus! {

/// The driver that finishes the handshake of an engine whose record traffic
/// this crate pumps itself (see [`TlsStream::do_io`]).
///
/// `Start` holds the stream mid-negotiation; `Failed` holds a handshake that
/// could not even be set up; `Empty` is the consumed driver, left behind once
/// a result — the stream or a failure — has been yielded. A consumed driver
/// must not be polled again: that is a caller bug, not a runtime condition,
/// and [`Handshake::poll`] excludes it by precondition.
pub enum Handshake<S: Session> {
    /// Negotiation in progress: poll to advance it.
    Start(TlsStream<S>),
    /// Setting the connection up already failed; poll surfaces the error.
    Failed(TlsError),
    /// The driver has yielded its result and is spent.
    Empty,
}

impl<S: Session> Handshake<S> {
    /// Whether the driver has already yielded its result.
    pub open spec fn is_resolved(self) -> bool {
        self is Empty
    }

    /// Wraps the outcome of setting up a connection: a stream whose session
    /// still negotiates, or the setup failure to be surfaced on first poll.
    pub fn new(start: Result<TlsStream<S>, TlsError>) -> (h: Handshake<S>)
        ensures
            start matches Ok(s) ==> h == Handshake::Start(s),
            start matches Err(e) ==> h == Handshake::<S>::Failed(e),
    {
        match start {
            Ok(s) => Handshake::Start(s),
            Err(e) => Handshake::Failed(e),
        }
    }

    /// Exec query for [`Handshake::is_resolved`].
    pub fn is_done(&self) -> (r: bool)
        ensures
            r == self.is_resolved(),
    {
        matches!(*self, Handshake::Empty)
    }

    /// Drives the handshake one step: runs the record pump once and checks
    /// whether the session finished negotiating.
    ///
    /// Exactly one of three things comes back: `Ready` with the established
    /// stream (terminal), an error (terminal — in particular `UnexpectedEof`
    /// when the peer closed the transport mid-negotiation), or `NotReady`,
    /// after which the caller re-polls once transport readiness changes.
    /// After a terminal outcome the driver is `Empty` and must not be polled
    /// again.
    pub fn poll(&mut self) -> (r: Result<Async<TlsStream<S>>, TlsError>)
        requires
            !old(self).is_resolved(),
        ensures
            *old(self) matches Handshake::Failed(e) ==> r matches Err(e2) && e2 == e,
            r matches Err(_) ==> *final(self) is Empty,
            r matches Ok(a) ==> (a matches Async::Ready(s) ==> ({
                &&& *final(self) is Empty
                &&& !s.session.model().handshaking
                &&& *old(self) matches Handshake::Start(st) && pump_frame(st, s)
            })),
            r matches Ok(a) && a is NotReady ==> ({
                &&& *final(self) matches Handshake::Start(s) && s.session.model().handshaking
                    && !s.eof
                &&& *old(self) matches Handshake::Start(st)
                    ==> (*final(self) matches Handshake::Start(s2) && pump_frame(st, s2))
            }),
            *old(self) matches Handshake::Start(st) ==> (st.session.model().handshaking || (r
                matches Ok(a) && (a matches Async::Ready(s) && s == st))),
            (*old(self) matches Handshake::Start(st) && st.eof) ==> !(r matches Ok(a)
                && a is NotReady),
            (*old(self) matches Handshake::Start(st) && st.session.model().handshaking
                && st.session.model().wants_read && !st.eof && st.rd.is_ready()
                && st.rd.is_closed() && st.rd@.len() == 0) ==> (r matches Err(e)
                && e == TlsError::UnexpectedEof),
            (*old(self) matches Handshake::Start(st) && st.session.model().handshaking && !st.eof
                && !st.rd.is_ready() && !st.wr.is_ready()) ==> (r matches Ok(a) && a is NotReady
                && *final(self) == *old(self)),
    {
        let mut taken = Handshake::Empty;
        std::mem::swap(self, &mut taken);
        let mut s = match taken {
            Handshake::Failed(e) => {
                return Err(e);
            },
            Handshake::Empty => {
                // Excluded by the precondition.
                return Err(TlsError::Fatal(FatalKind::Setup));
            },
            Handshake::Start(s) => s,
        };
        if !s.session.is_handshaking() {
            proof {
                lemma_pump_frame_refl(s);
            }
            return Ok(Async::Ready(s));
        }
        match s.do_io() {
            Ok(()) => {},
            Err(e) => {
                if !e.is_would_block() {
                    return Err(e);
                }
            },
        }
        if !s.session.is_handshaking() {
            return Ok(Async::Ready(s));
        }
        if s.eof {
            return Err(TlsError::UnexpectedEof);
        }
        *self = Handshake::Start(s);
        Ok(Async::NotReady)
    }
}

} // verus!
