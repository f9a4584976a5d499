use vstd::prelude::*;

verus! {

/// The smaller of a requested amount and an available amount.
pub open spec fn cap_len(want: int, avail: int) -> int {
    if want <= avail {
        want
    } else {
        avail
    }
}

/// One direction of a byte transport, held in memory.
///
/// A `ChanBuf` carries the bytes that have been handed to the transport but
/// not yet taken out of it, together with the two signals a non-blocking
/// transport reports: whether the direction is currently ready (reading or
/// writing it would make progress rather than block), and whether it has been
/// closed (a read past the pending bytes sees end-of-stream; nothing more may
/// be pushed).
///
/// The view of a `ChanBuf` is the sequence of pending bytes, oldest first.
#[derive(Debug)]
pub struct ChanBuf {
    data: Vec<u8>,
    ready: bool,
    closed: bool,
}

impl View for ChanBuf {
    type V = Seq<u8>;

    closed spec fn view(&self) -> Seq<u8> {
        self.data@
    }
}

impl ChanBuf {
    /// Whether the direction is currently ready.
    pub closed spec fn is_ready(self) -> bool {
        self.ready
    }

    /// Whether the direction has been closed.
    pub closed spec fn is_closed(self) -> bool {
        self.closed
    }

    /// An empty channel, ready and open.
    pub fn new() -> (r: ChanBuf)
        ensures
            r@ == Seq::<u8>::empty(),
            r.is_ready(),
            !r.is_closed(),
    {
        let r = ChanBuf { data: Vec::new(), ready: true, closed: false };
        proof {
            assert(r@ =~= Seq::<u8>::empty());
        }
        r
    }

    /// The number of pending bytes.
    pub fn pending_len(&self) -> (r: usize)
        ensures
            r == self@.len(),
    {
        self.data.len()
    }

    /// Exec query for [`ChanBuf::is_ready`].
    pub fn ready(&self) -> (r: bool)
        ensures
            r == self.is_ready(),
    {
        self.ready
    }

    /// Exec query for [`ChanBuf::is_closed`].
    pub fn closed(&self) -> (r: bool)
        ensures
            r == self.is_closed(),
    {
        self.closed
    }

    /// Whether a read on this direction would make progress right now:
    /// the transport is ready and there is either data or an end-of-stream
    /// to deliver.
    pub fn read_ready(&self) -> (r: bool)
        ensures
            r == (self.is_ready() && (self@.len() > 0 || self.is_closed())),
    {
        self.ready && (self.data.len() > 0 || self.closed)
    }

    /// Whether a write on this direction would make progress right now.
    pub fn write_ready(&self) -> (r: bool)
        ensures
            r == (self.is_ready() && !self.is_closed()),
    {
        self.ready && !self.closed
    }

    /// Marks the direction ready or not ready.
    pub fn set_ready(&mut self, ready: bool)
        ensures
            final(self)@ == old(self)@,
            final(self).is_ready() == ready,
            final(self).is_closed() == old(self).is_closed(),
    {
        self.ready = ready;
    }

    /// Closes the direction: the pending bytes stay deliverable, but after
    /// them a reader sees end-of-stream, and nothing more may be pushed.
    pub fn close(&mut self)
        ensures
            final(self)@ == old(self)@,
            final(self).is_ready() == old(self).is_ready(),
            final(self).is_closed(),
    {
        self.closed = true;
    }

    /// Appends bytes behind the pending ones.
    pub fn push(&mut self, bytes: &Vec<u8>)
        requires
            !old(self).is_closed(),
        ensures
            final(self)@ == old(self)@ + bytes@,
            final(self).is_ready() == old(self).is_ready(),
            !final(self).is_closed(),
    {
        let mut i: usize = 0;
        #[verifier::loop_isolation(false)]
        while i < bytes.len()
            invariant
                i <= bytes.len(),
                self.data@ == old(self).data@ + bytes@.take(i as int),
                self.ready == old(self).ready,
                self.closed == old(self).closed,
            decreases bytes.len() - i,
        {
            self.data.push(bytes[i]);
            proof {
                assert(self.data@ =~= old(self).data@ + bytes@.take(i + 1));
            }
            i += 1;
        }
        proof {
            assert(final(self)@ =~= old(self)@ + bytes@);
        }
    }

    /// Copies out up to `max` of the pending bytes without consuming them.
    pub fn peek_to(&self, max: usize) -> (r: Vec<u8>)
        ensures
            r@.len() == cap_len(max as int, self@.len() as int),
            r@ == self@.take(r@.len() as int),
    {
        let avail = self.data.len();
        let k = if max <= avail {
            max
        } else {
            avail
        };
        let mut out: Vec<u8> = Vec::new();
        let mut i: usize = 0;
        #[verifier::loop_isolation(false)]
        while i < k
            invariant
                i <= k,
                k <= avail,
                out@ == self@.take(i as int),
            decreases k - i,
        {
            out.push(self.data[i]);
            proof {
                assert(out@ =~= self@.take(i + 1));
            }
            i += 1;
        }
        out
    }

    /// Drops the first `n` pending bytes.
    pub fn consume(&mut self, n: usize)
        requires
            n <= old(self)@.len(),
        ensures
            final(self)@ == old(self)@.skip(n as int),
            final(self).is_ready() == old(self).is_ready(),
            final(self).is_closed() == old(self).is_closed(),
    {
        let mut rest: Vec<u8> = Vec::new();
        let mut i: usize = n;
        #[verifier::loop_isolation(false)]
        while i < self.data.len()
            invariant
                n <= i <= self.data.len(),
                self.data@ == old(self).data@,
                rest@ == self@.subrange(n as int, i as int),
            decreases self.data.len() - i,
        {
            rest.push(self.data[i]);
            proof {
                assert(rest@ =~= self@.subrange(n as int, i + 1));
            }
            i += 1;
        }
        proof {
            assert(rest@ =~= old(self)@.skip(n as int));
        }
        self.data = rest;
    }

    /// Takes out up to `max` of the pending bytes.
    pub fn take(&mut self, max: usize) -> (r: Vec<u8>)
        ensures
            r@.len() == cap_len(max as int, old(self)@.len() as int),
            r@ == old(self)@.take(r@.len() as int),
            final(self)@ == old(self)@.skip(r@.len() as int),
            final(self).is_ready() == old(self).is_ready(),
            final(self).is_closed() == old(self).is_closed(),
    {
        let out = self.peek_to(max);
        self.consume(out.len());
        out
    }

    /// Takes out every pending byte.
    pub fn take_all(&mut self) -> (r: Vec<u8>)
        ensures
            r@ == old(self)@,
            final(self)@ == Seq::<u8>::empty(),
            final(self).is_ready() == old(self).is_ready(),
            final(self).is_closed() == old(self).is_closed(),
    {
        let n = self.pending_len();
        let out = self.take(n);
        proof {
            assert(out@ =~= old(self)@);
            assert(final(self)@ =~= Seq::<u8>::empty());
        }
        out
    }
}

} // verus!
