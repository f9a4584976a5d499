//! Non-blocking TLS streams over a poll-driven transport.
//!
//! This library adapts a blocking-shaped TLS handshake and record layer into
//! an operation set that never blocks: every call either finishes, fails for
//! good, or reports [`TlsError::WouldBlock`] and expects to be re-polled once
//! the transport is ready again.
//!
//! The pieces are:
//! - [`ChanBuf`], one direction of the transport held in memory, with
//!   explicit readiness and end-of-stream signals;
//! - [`Session`], the capability an underlying TLS engine must offer when
//!   this crate pumps its record traffic, with [`FakeSession`] as a scripted
//!   engine and [`RustlsSession`] backed by `rustls`;
//! - [`TlsStream`], the established connection: plaintext read and write,
//!   flush and orderly shutdown over the record pump;
//! - [`Handshake`], the driver finishing a handshake whose record traffic
//!   this crate pumps, reached through [`ClientContext`] and
//!   [`ServerContext`];
//! - [`MidHandshake`], the driver for engines that buffer records
//!   themselves and only need their handshake call retried, together with
//!   the laws proved of its behaviour.

mod chan;
mod driver;
mod engine;
mod err;
mod handshake;
mod session;
mod stream;
mod testing;
mod util;

pub use chan::{cap_len, ChanBuf};
pub use driver::{abs_outcome, abs_state, fresh_driver, outcome_at, run_driver, spec_poll, state_of,
                 law_bounded_polls, law_repoll_detected, law_resolves_exactly_once,
                 AcceptAsync, Attempt, ConnectAsync, DriverState, HsSession, MidHandshake,
                 PollOutcome, SpecHs};
pub use engine::{ClientContext, ClientContextExt, ClientHandshake, RustlsSession, ServerContext,
                 ServerContextExt, ServerHandshake};
pub use err::{Async, FatalKind, TlsError};
pub use handshake::Handshake;
pub use session::{Session, SessionModel};
pub use stream::{lemma_pump_frame_refl, pump_frame, TlsStream, TlsStreamExt};
pub use testing::{fake_idle, fake_process, fake_read_plain, fake_read_tls,
                  fake_write_plain, fake_write_tls, law_identity_round_trip, FakeHsSession,
                  FakeModel, FakeSession};

use vstd::prelude::*;

verus! {

/// Marker restricting which configuration types may start handshakes through
/// this crate; implemented by the client and server contexts.
pub trait Sealed {
}

} // verus!
