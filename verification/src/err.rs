use vstd::prelude::*;

verus! {

/// The category of a fatal connection failure, as surfaced to callers.
#[derive(Clone, Copy, Debug, PartialEq, Eq, Structural)]
pub enum FatalKind {
    /// Certificate or peer-identity verification failed.
    Certificate,
    /// The peer violated the record or handshake protocol.
    Protocol,
    /// The byte transport under the connection failed.
    Transport,
    /// The connection could not even be set up (bad configuration,
    /// an invalid domain name, unusable credentials).
    Setup,
}

/// Every condition an operation on a stream or a handshake can report.
///
/// `WouldBlock` is not an error in the domain sense: it means "no progress
/// possible right now, retry once the transport is ready again". Everything
/// else is terminal for the connection.
#[derive(Clone, Copy, Debug, PartialEq, Eq, Structural)]
pub enum TlsError {
    /// The operation cannot make progress without blocking; retry later.
    WouldBlock,
    /// The peer closed the transport while the session still expected
    /// handshake data.
    UnexpectedEof,
    /// A terminal failure of the given category.
    Fatal(FatalKind),
}

impl TlsError {
    /// True of every condition that ends the connection for good.
    pub open spec fn is_fatal(self) -> bool {
        !(self is WouldBlock)
    }

    /// Whether this condition is the retryable one.
    pub fn is_would_block(&self) -> (r: bool)
        ensures
            r == (*self is WouldBlock),
    {
        matches!(*self, TlsError::WouldBlock)
    }
}

/// The outcome of polling an operation that may have to suspend.
#[derive(Debug)]
pub enum Async<T> {
    /// No result yet: re-poll after the next readiness change.
    NotReady,
    /// The operation finished and yields its value.
    Ready(T),
}

impl<T> Async<T> {
    /// Whether a result is available.
    pub fn is_ready(&self) -> (r: bool)
        ensures
            r == (*self is Ready),
    {
        matches!(*self, Async::Ready(_))
    }
}

} // verus!
