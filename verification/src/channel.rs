//! A bounded in-order byte channel: one direction of a loopback link.
//!
//! The channel carries the bytes written at one endpoint and not yet
//! read at the other.  Two ghost histories record every byte that ever
//! entered (`sent`) and every byte that ever left (`consumed`), and the
//! channel's invariant ties them together: what was sent is exactly what
//! was consumed followed by what is still pending.  From that invariant,
//! delivery in write order is a theorem, however the writes and reads
//! were chunked.

use vstd::prelude::*;

verus! {

/// One direction of a loopback link: a bounded FIFO of bytes, with the
/// ghost history of everything that ever passed through it.
pub struct ByteChannel {
    /// The bytes in flight: written, not yet read.
    pub buf: Vec<u8>,
    /// The most bytes the channel holds at once.
    pub cap: usize,
    /// Ghost: every byte ever pushed, in order.
    pub sent: Ghost<Seq<u8>>,
    /// Ghost: every byte ever taken out (read or discarded), in order.
    pub consumed: Ghost<Seq<u8>>,
}

impl ByteChannel {
    /// The channel's invariant: the pending bytes fit the bound, and the
    /// send history is exactly the consumption history followed by the
    /// pending bytes.
    pub open spec fn wf(self) -> bool {
        &&& 1 <= self.cap
        &&& self.buf@.len() <= self.cap
        &&& self.sent@ == self.consumed@ + self.buf@
    }

    /// An empty channel holding at most `cap` bytes.
    pub fn new(cap: usize) -> (r: ByteChannel)
        requires
            1 <= cap,
        ensures
            r.wf(),
            r.cap == cap,
            r.buf@ =~= Seq::<u8>::empty(),
            r.sent@ =~= Seq::<u8>::empty(),
            r.consumed@ =~= Seq::<u8>::empty(),
    {
        let r = ByteChannel {
            buf: Vec::new(),
            cap,
            sent: Ghost(Seq::empty()),
            consumed: Ghost(Seq::empty()),
        };
        proof {
            assert(r.sent@ =~= r.consumed@ + r.buf@);
        }
        r
    }

    /// How many bytes are pending.
    pub fn len(&self) -> (r: usize)
        ensures
            r == self.buf@.len(),
    {
        self.buf.len()
    }

    /// How many more bytes the channel accepts before it is full.
    pub fn space(&self) -> (r: usize)
        requires
            self.wf(),
        ensures
            r == self.cap - self.buf@.len(),
    {
        self.cap - self.buf.len()
    }

    /// Append the first `n` bytes of `data`, which must fit.
    pub fn push_bytes(&mut self, data: &Vec<u8>, n: usize)
        requires
            old(self).wf(),
            n <= data@.len(),
            old(self).buf@.len() + n <= old(self).cap,
        ensures
            final(self).wf(),
            final(self).cap == old(self).cap,
            final(self).buf@ == old(self).buf@ + data@.take(n as int),
            final(self).sent@ == old(self).sent@ + data@.take(n as int),
            final(self).consumed@ == old(self).consumed@,
    {
        let mut i: usize = 0;
        while i < n
            invariant
                i <= n,
                n <= data@.len(),
                self.cap == old(self).cap,
                self.buf@ == old(self).buf@ + data@.take(i as int),
                self.buf@.len() <= self.cap,
                self.sent == old(self).sent,
                self.consumed == old(self).consumed,
                old(self).buf@.len() + n <= old(self).cap,
            decreases n - i,
        {
            self.buf.push(data[i]);
            proof {
                assert(self.buf@ =~= old(self).buf@ + data@.take(i + 1));
            }
            i = i + 1;
        }
        self.sent = Ghost(self.sent@ + data@.take(n as int));
        proof {
            assert(self.sent@ =~= self.consumed@ + self.buf@);
        }
    }

    /// Take the `n` oldest pending bytes out, in order.
    pub fn take_bytes(&mut self, n: usize) -> (r: Vec<u8>)
        requires
            old(self).wf(),
            n <= old(self).buf@.len(),
        ensures
            final(self).wf(),
            final(self).cap == old(self).cap,
            r@ == old(self).buf@.take(n as int),
            final(self).buf@ == old(self).buf@.skip(n as int),
            final(self).sent@ == old(self).sent@,
            final(self).consumed@ == old(self).consumed@ + r@,
    {
        let mut r: Vec<u8> = Vec::new();
        let mut i: usize = 0;
        while i < n
            invariant
                i <= n,
                n <= old(self).buf@.len(),
                self.cap == old(self).cap,
                self.buf@ == old(self).buf@.skip(i as int),
                r@ == old(self).buf@.take(i as int),
                self.sent == old(self).sent,
                self.consumed == old(self).consumed,
            decreases n - i,
        {
            let b = self.buf.remove(0);
            r.push(b);
            proof {
                assert(self.buf@ =~= old(self).buf@.skip(i + 1));
                assert(r@ =~= old(self).buf@.take(i + 1));
            }
            i = i + 1;
        }
        self.consumed = Ghost(self.consumed@ + r@);
        proof {
            assert(self.sent@ =~= self.consumed@ + self.buf@);
        }
        r
    }

    /// Discard every pending byte, as a buffer-clear request does.  The
    /// discarded bytes count as consumed: they left the channel in
    /// order, just not into a reader's hands.
    pub fn discard_all(&mut self)
        requires
            old(self).wf(),
        ensures
            final(self).wf(),
            final(self).cap == old(self).cap,
            final(self).buf@ =~= Seq::<u8>::empty(),
            final(self).sent@ == old(self).sent@,
            final(self).consumed@ == old(self).consumed@ + old(self).buf@,
    {
        self.consumed = Ghost(self.consumed@ + self.buf@);
        self.buf.clear();
        proof {
            assert(self.sent@ =~= self.consumed@ + self.buf@);
        }
    }

    /// Law: delivery is in write order.  In every reachable state, the
    /// bytes that left the channel are exactly the oldest prefix of the
    /// bytes that entered it, so chaining any reads after any writes
    /// hands the reader precisely the written bytes, in order.
    pub proof fn lemma_consumed_is_sent_prefix(self)
        requires
            self.wf(),
        ensures
            self.consumed@ == self.sent@.take(self.consumed@.len() as int),
            self.buf@ == self.sent@.skip(self.consumed@.len() as int),
    {
        assert(self.consumed@ =~= self.sent@.take(self.consumed@.len() as int));
        assert(self.buf@ =~= self.sent@.skip(self.consumed@.len() as int));
    }
}

} // verus!
