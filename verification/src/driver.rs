use vstd::prelude::*;
use crate::err::TlsError;

verus! {

/// What one blocking-shaped handshake attempt of a self-buffering engine
/// reports.
pub enum Attempt<S, T> {
    /// Negotiation finished and yields the established connection.
    Complete(T),
    /// The transport was not ready for what the engine needed next; the
    /// interrupted session is handed back to be resumed later.
    Interrupted(S),
    /// Negotiation failed for good.
    Fatal(TlsError),
}

/// The state a handshake driver holds between polls.
///
/// The consumed driver is its own tag, not an emptied-out representation
/// reused ambiguously, so that polling a spent driver is structurally
/// detectable.
pub enum DriverState<S, T> {
    /// An interrupted session awaiting its next attempt.
    InProgress(S),
    /// A finished session not yet handed out.
    Completed(T),
    /// A failure not yet surfaced.
    Failed(TlsError),
    /// The driver has yielded its result and is spent.
    Consumed,
}

/// What one poll of a driver reports.
pub enum PollOutcome<T> {
    /// No result yet: re-poll after the next readiness change.
    NotReady,
    /// Negotiation finished; this driver is now spent.
    Ready(T),
    /// Negotiation failed; this driver is now spent.
    Failed(TlsError),
    /// The driver was polled although it was already spent: a caller bug.
    Misuse,
}

/// The capability of an engine that buffers its own record traffic and only
/// needs its handshake call retried: one resumable attempt.
///
/// The two spec functions are the session's schedule, the ghost quantity the
/// driver's guarantees are stated against: how many more attempts the
/// transport will interrupt, and what the resolving attempt reports. For a
/// scripted engine they are simply its script; for a live engine they name
/// the run the transport will in fact produce.
pub trait HsSession: Sized {
    /// What a finished negotiation yields.
    type Done;

    /// How many more attempts will be interrupted before one resolves.
    spec fn steps(&self) -> nat;

    /// What the resolving attempt reports: `None` for a finished
    /// negotiation, or the failure it ends with.
    spec fn verdict(&self) -> Option<TlsError>;

    /// Resumes the handshake once, consuming the session; an interrupted
    /// attempt hands back the session to resume, one step closer to
    /// resolution.
    fn attempt(self) -> (r: Attempt<Self, Self::Done>)
        ensures
            self.steps() > 0 ==> (r matches Attempt::Interrupted(s) && s.steps() == self.steps()
                - 1 && s.verdict() == self.verdict()),
            self.steps() == 0 && self.verdict() is None ==> r is Complete,
            self.steps() == 0 ==> (self.verdict() matches Some(e) ==> (r
                matches Attempt::Fatal(e2) && e2 == e)),
    ;
}

/// The state a fresh driver takes from the outcome of the engine's first,
/// eager handshake attempt.
pub open spec fn state_of<S, T>(a: Attempt<S, T>) -> DriverState<S, T> {
    match a {
        Attempt::Complete(t) => DriverState::Completed(t),
        Attempt::Interrupted(s) => DriverState::InProgress(s),
        Attempt::Fatal(e) => DriverState::Failed(e),
    }
}

/// The schedule of an in-progress session, as the abstract driver sees it.
pub ghost struct SpecHs {
    /// How many more attempts will be interrupted.
    pub steps: nat,
    /// What the resolving attempt reports.
    pub verdict: Option<TlsError>,
}

/// A driver state with the sessions abstracted to their schedule.
pub open spec fn abs_state<H: HsSession>(st: DriverState<H, H::Done>) -> DriverState<SpecHs, ()> {
    match st {
        DriverState::InProgress(s) => DriverState::InProgress(
            SpecHs { steps: s.steps(), verdict: s.verdict() },
        ),
        DriverState::Completed(_) => DriverState::Completed(()),
        DriverState::Failed(e) => DriverState::Failed(e),
        DriverState::Consumed => DriverState::Consumed,
    }
}

/// A poll outcome with the yielded value abstracted away.
pub open spec fn abs_outcome<T>(r: PollOutcome<T>) -> PollOutcome<()> {
    match r {
        PollOutcome::NotReady => PollOutcome::NotReady,
        PollOutcome::Ready(_) => PollOutcome::Ready(()),
        PollOutcome::Failed(e) => PollOutcome::Failed(e),
        PollOutcome::Misuse => PollOutcome::Misuse,
    }
}

/// One transition of the abstract driver: the state after a poll and what
/// that poll reports. This is the specification that [`MidHandshake::poll`]
/// refines, and the subject of the laws below.
pub open spec fn spec_poll(st: DriverState<SpecHs, ()>) -> (DriverState<SpecHs, ()>, PollOutcome<
    (),
>) {
    match st {
        DriverState::Consumed => (DriverState::Consumed, PollOutcome::Misuse),
        DriverState::Completed(t) => (DriverState::Consumed, PollOutcome::Ready(t)),
        DriverState::Failed(e) => (DriverState::Consumed, PollOutcome::Failed(e)),
        DriverState::InProgress(h) => {
            if h.steps > 0 {
                (
                    DriverState::InProgress(
                        SpecHs { steps: (h.steps - 1) as nat, verdict: h.verdict },
                    ),
                    PollOutcome::NotReady,
                )
            } else {
                match h.verdict {
                    None => (DriverState::Consumed, PollOutcome::Ready(())),
                    Some(e) => (DriverState::Consumed, PollOutcome::Failed(e)),
                }
            }
        },
    }
}

/// The driver that converts one blocking-shaped handshake into an
/// idempotent, resumable, non-blocking operation (for engines that buffer
/// their own record traffic).
pub struct MidHandshake<H: HsSession> {
    /// The state carried between polls.
    pub state: DriverState<H, H::Done>,
}

impl<H: HsSession> MidHandshake<H> {
    /// A driver over the outcome of the engine's first, eager attempt.
    pub fn new(first: Attempt<H, H::Done>) -> (r: MidHandshake<H>)
        ensures
            r.state == state_of(first),
    {
        MidHandshake {
            state: match first {
                Attempt::Complete(t) => DriverState::Completed(t),
                Attempt::Interrupted(s) => DriverState::InProgress(s),
                Attempt::Fatal(e) => DriverState::Failed(e),
            },
        }
    }

    /// Whether the driver has already yielded its result.
    pub fn is_consumed(&self) -> (r: bool)
        ensures
            r == (self.state is Consumed),
    {
        matches!(self.state, DriverState::Consumed)
    }

    /// Drives the handshake one step, refining [`spec_poll`]: a stored
    /// result is yielded, an in-progress session is resumed through one
    /// attempt, and after a yielded result the driver is spent. Polling a
    /// spent driver is a caller bug and is excluded here by precondition;
    /// [`MidHandshake::try_poll`] detects it at run time instead.
    pub fn poll(&mut self) -> (r: PollOutcome<H::Done>)
        requires
            !(old(self).state is Consumed),
        ensures
            abs_state(final(self).state) == spec_poll(abs_state(old(self).state)).0,
            abs_outcome(r) == spec_poll(abs_state(old(self).state)).1,
            !(r is Misuse),
            old(self).state matches DriverState::Completed(t) ==> (r matches PollOutcome::Ready(
                t2,
            ) && t2 == t),
            old(self).state matches DriverState::Failed(e) ==> (r matches PollOutcome::Failed(e2)
                && e2 == e),
    {
        let mut taken = DriverState::Consumed;
        std::mem::swap(&mut self.state, &mut taken);
        let s = match taken {
            DriverState::Consumed => {
                // Excluded by the precondition.
                return PollOutcome::Misuse;
            },
            DriverState::Completed(t) => {
                return PollOutcome::Ready(t);
            },
            DriverState::Failed(e) => {
                return PollOutcome::Failed(e);
            },
            DriverState::InProgress(s) => s,
        };
        match s.attempt() {
            Attempt::Complete(t) => PollOutcome::Ready(t),
            Attempt::Fatal(e) => PollOutcome::Failed(e),
            Attempt::Interrupted(resumed) => {
                self.state = DriverState::InProgress(resumed);
                PollOutcome::NotReady
            },
        }
    }

    /// Like [`MidHandshake::poll`], but total: polling a spent driver is
    /// reported as [`PollOutcome::Misuse`] instead of being excluded.
    pub fn try_poll(&mut self) -> (r: PollOutcome<H::Done>)
        ensures
            abs_state(final(self).state) == spec_poll(abs_state(old(self).state)).0,
            abs_outcome(r) == spec_poll(abs_state(old(self).state)).1,
    {
        if self.is_consumed() {
            return PollOutcome::Misuse;
        }
        self.poll()
    }
}

/// The driver behind a client-side handshake of a self-buffering engine.
pub struct ConnectAsync<H: HsSession> {
    /// The underlying driver.
    pub inner: MidHandshake<H>,
}

impl<H: HsSession> ConnectAsync<H> {
    /// Starts from the outcome of the engine's eager connect call.
    pub fn new(first: Attempt<H, H::Done>) -> (r: ConnectAsync<H>)
        ensures
            r.inner.state == state_of(first),
    {
        ConnectAsync { inner: MidHandshake::new(first) }
    }

    /// Polls the underlying driver; see [`MidHandshake::poll`].
    pub fn poll(&mut self) -> (r: PollOutcome<H::Done>)
        requires
            !(old(self).inner.state is Consumed),
        ensures
            abs_state(final(self).inner.state) == spec_poll(abs_state(old(self).inner.state)).0,
            abs_outcome(r) == spec_poll(abs_state(old(self).inner.state)).1,
            !(r is Misuse),
    {
        self.inner.poll()
    }
}

/// The driver behind a server-side handshake of a self-buffering engine.
pub struct AcceptAsync<H: HsSession> {
    /// The underlying driver.
    pub inner: MidHandshake<H>,
}

impl<H: HsSession> AcceptAsync<H> {
    /// Starts from the outcome of the engine's eager accept call.
    pub fn new(first: Attempt<H, H::Done>) -> (r: AcceptAsync<H>)
        ensures
            r.inner.state == state_of(first),
    {
        AcceptAsync { inner: MidHandshake::new(first) }
    }

    /// Polls the underlying driver; see [`MidHandshake::poll`].
    pub fn poll(&mut self) -> (r: PollOutcome<H::Done>)
        requires
            !(old(self).inner.state is Consumed),
        ensures
            abs_state(final(self).inner.state) == spec_poll(abs_state(old(self).inner.state)).0,
            abs_outcome(r) == spec_poll(abs_state(old(self).inner.state)).1,
            !(r is Misuse),
    {
        self.inner.poll()
    }
}

/// The abstract driver state after `k` polls.
pub open spec fn run_driver(st: DriverState<SpecHs, ()>, k: nat) -> DriverState<SpecHs, ()>
    decreases k,
{
    if k == 0 {
        st
    } else {
        spec_poll(run_driver(st, (k - 1) as nat)).0
    }
}

/// What poll number `k` (counting from zero) reports.
pub open spec fn outcome_at(st: DriverState<SpecHs, ()>, k: nat) -> PollOutcome<()> {
    spec_poll(run_driver(st, k)).1
}

/// A driver over a session whose schedule has `steps` interruptions left.
pub open spec fn fresh_driver(steps: nat, verdict: Option<TlsError>) -> DriverState<SpecHs, ()> {
    DriverState::InProgress(SpecHs { steps, verdict })
}

/// The shape of a driver run: while interruptions remain the driver stays
/// in progress, with their number falling by one per poll; after the
/// resolving poll it is consumed for good.
proof fn lemma_run_shape(steps: nat, verdict: Option<TlsError>, k: nat)
    ensures
        k <= steps ==> run_driver(fresh_driver(steps, verdict), k) == fresh_driver(
            (steps - k) as nat,
            verdict,
        ),
        k > steps ==> run_driver(fresh_driver(steps, verdict), k) is Consumed,
    decreases k,
{
    if k > 0 {
        lemma_run_shape(steps, verdict, (k - 1) as nat);
    }
}

/// However many polls the transport interrupts, the driver reports "not
/// ready" for each of them, resolves exactly once — at the first poll whose
/// attempt is no longer interrupted, with success or failure as the session's
/// schedule has it — and never yields a second result: every later poll is
/// the misuse report, not a repeated result.
pub proof fn law_resolves_exactly_once(steps: nat, verdict: Option<TlsError>, k: nat)
    ensures
        k < steps ==> outcome_at(fresh_driver(steps, verdict), k) is NotReady,
        k == steps && verdict is None ==> outcome_at(fresh_driver(steps, verdict), k)
            == PollOutcome::<()>::Ready(()),
        k == steps ==> (verdict matches Some(e) ==> outcome_at(fresh_driver(steps, verdict), k)
            == PollOutcome::<()>::Failed(e)),
        k > steps ==> outcome_at(fresh_driver(steps, verdict), k) is Misuse,
{
    lemma_run_shape(steps, verdict, k);
}

/// Once a poll has yielded a result — ready or failed — the driver is spent,
/// and polling it again is detected as misuse rather than answered with a
/// stale result.
pub proof fn law_repoll_detected(st: DriverState<SpecHs, ()>)
    ensures
        spec_poll(st).1 is Ready || spec_poll(st).1 is Failed ==> spec_poll(spec_poll(st).0).1
            is Misuse,
{
}

/// A driver whose transport interrupts `steps` polls makes monotonic
/// progress — each interrupted poll leaves a session exactly one step closer
/// to resolution — and terminates at poll number `steps`: `steps + 1` polls
/// in all.
pub proof fn law_bounded_polls(steps: nat, verdict: Option<TlsError>, k: nat)
    ensures
        k <= steps ==> run_driver(fresh_driver(steps, verdict), k) == fresh_driver(
            (steps - k) as nat,
            verdict,
        ),
        k < steps ==> outcome_at(fresh_driver(steps, verdict), k) is NotReady,
        k == steps ==> !(outcome_at(fresh_driver(steps, verdict), k) is NotReady) && !(outcome_at(
            fresh_driver(steps, verdict),
            k,
        ) is Misuse),
{
    lemma_run_shape(steps, verdict, k);
}

} // verus!
