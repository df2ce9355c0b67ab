//! The loopback pair: two connected duplex serial endpoints.
//!
//! The pair is the stream abstraction made testable without hardware:
//! two endpoints such that bytes written to one become readable on the
//! other, in write order, as a pure byte stream with no message
//! boundaries.  Each endpoint carries its own device settings, control
//! lines and per-direction readiness slots; the two directions are
//! bounded byte channels.  Closing one endpoint makes subsequent
//! operations on the other fail with an I/O error rather than hang.
//!
//! Readiness is modelled level-triggered: a poll consults the true state
//! of the link (bytes pending, peer gone), caches readiness when it
//! holds, and otherwise registers the caller's waiter, replacing any
//! previous one.  A cached readiness that turns out stale (the raw
//! attempt would still block) is cleared, advancing the generation, and
//! interest is re-armed — the retry loop of an asynchronous read or
//! write, run here to completion in straight-line verified code.

use vstd::prelude::*;

use crate::channel::ByteChannel;
use crate::config::{DataBits, DeviceConfig, FlowControl, LineState, Parity, StopBits};
use crate::error::{DeviceError, RawErrorKind};
use crate::readiness::{cancel_spec, next_generation, DirState, DirectionReadiness};

verus! {

/// One of the two ends of a loopback pair.
#[derive(Clone, Copy, Debug, PartialEq, Eq, Structural)]
pub enum Endpoint {
    /// The primary end.
    A,
    /// The secondary end.
    B,
}

/// The endpoint at the other end of the link.
pub open spec fn peer_of(e: Endpoint) -> Endpoint {
    match e {
        Endpoint::A => Endpoint::B,
        Endpoint::B => Endpoint::A,
    }
}

impl Endpoint {
    /// The endpoint at the other end of the link.
    pub fn opposite(self) -> (r: Endpoint)
        ensures
            r == peer_of(self),
    {
        match self {
            Endpoint::A => Endpoint::B,
            Endpoint::B => Endpoint::A,
        }
    }
}

/// The per-endpoint state: liveness, settings, control lines, and the
/// readiness slot of each direction.
#[derive(Clone, Copy, Debug, PartialEq, Eq, Structural)]
pub struct EndDevice {
    /// Whether this end is still open.
    pub is_open: bool,
    /// Whether the port is held exclusively.
    pub exclusive: bool,
    /// The line settings of this end.
    pub cfg: DeviceConfig,
    /// The control lines this end drives.
    pub lines: LineState,
    /// The readiness slot of the read direction.
    pub read_ready: DirectionReadiness,
    /// The readiness slot of the write direction.
    pub write_ready: DirectionReadiness,
}

/// Two connected, unnamed duplex endpoints over two bounded byte
/// channels.
pub struct LoopbackPair {
    /// The primary endpoint's state.
    pub end_a: EndDevice,
    /// The secondary endpoint's state.
    pub end_b: EndDevice,
    /// Bytes in flight from A to B.
    pub ab: ByteChannel,
    /// Bytes in flight from B to A.
    pub ba: ByteChannel,
}

/// What a synchronous, non-suspending read attempt produced.
#[derive(Debug, PartialEq, Eq)]
pub enum ReadOutcome {
    /// The oldest pending bytes, in order.
    Data(Vec<u8>),
    /// No byte is pending; the operation would have to block.
    WouldBlock,
    /// The operation failed.
    Failed(DeviceError),
}

/// What a synchronous, non-suspending write attempt produced.
#[derive(Debug, PartialEq, Eq)]
pub enum WriteOutcome {
    /// This many leading bytes were accepted into the link.
    Accepted(usize),
    /// The link's buffer is full; the operation would have to block.
    WouldBlock,
    /// The operation failed.
    Failed(DeviceError),
}

/// What an asynchronous read poll produced.
#[derive(Debug, PartialEq, Eq)]
pub enum PollRead {
    /// The oldest pending bytes, in order.
    Delivered(Vec<u8>),
    /// Nothing to read yet; the waiter is registered.
    Pending,
    /// The operation failed.
    Failed(DeviceError),
}

/// What an asynchronous write poll produced.
#[derive(Debug, PartialEq, Eq)]
pub enum PollWrite {
    /// This many leading bytes were accepted into the link.
    Accepted(usize),
    /// No buffer space yet; the waiter is registered.
    Pending,
    /// The operation failed.
    Failed(DeviceError),
}

/// What an asynchronous flush poll produced.
#[derive(Debug, PartialEq, Eq)]
pub enum PollFlush {
    /// Every byte written at this end has been taken by the peer.
    Flushed,
    /// Bytes are still in flight; the waiter is registered.
    Pending,
    /// The operation failed.
    Failed(DeviceError),
}

/// The smaller of two mathematical integers.
pub open spec fn min_int(a: int, b: int) -> int {
    if a < b {
        a
    } else {
        b
    }
}

impl LoopbackPair {
    /// The state of endpoint `e`.
    pub open spec fn end_of(self, e: Endpoint) -> EndDevice {
        match e {
            Endpoint::A => self.end_a,
            Endpoint::B => self.end_b,
        }
    }

    /// The channel that carries what `e` writes.
    pub open spec fn chan_from(self, e: Endpoint) -> ByteChannel {
        match e {
            Endpoint::A => self.ab,
            Endpoint::B => self.ba,
        }
    }

    /// The channel that carries what `e` reads.
    pub open spec fn chan_to(self, e: Endpoint) -> ByteChannel {
        match e {
            Endpoint::A => self.ba,
            Endpoint::B => self.ab,
        }
    }

    /// The bytes pending for `e` to read.
    pub open spec fn inbound(self, e: Endpoint) -> Seq<u8> {
        self.chan_to(e).buf@
    }

    /// The bytes `e` has written that the peer has not yet taken.
    pub open spec fn outbound(self, e: Endpoint) -> Seq<u8> {
        self.chan_from(e).buf@
    }

    /// Every byte `e` ever wrote into the link, in order.
    pub open spec fn sent_history(self, e: Endpoint) -> Seq<u8> {
        self.chan_from(e).sent@
    }

    /// Every byte that ever left the channel towards `e`, in order.
    pub open spec fn delivered_history(self, e: Endpoint) -> Seq<u8> {
        self.chan_to(e).consumed@
    }

    /// Whether endpoint `e` is still open.
    pub open spec fn open_spec(self, e: Endpoint) -> bool {
        self.end_of(e).is_open
    }

    /// The pair's invariant: both channels are well formed and their
    /// bounds fit a 32-bit byte count, as the queries report them.
    pub open spec fn wf(self) -> bool {
        &&& self.ab.wf()
        &&& self.ba.wf()
        &&& self.ab.cap <= u32::MAX as usize
        &&& self.ba.cap <= u32::MAX as usize
    }

    /// Create a pair of connected, unnamed endpoints, each fresh: open,
    /// non-exclusive, default settings, idle control lines, idle
    /// readiness, and nothing in flight in either direction.  Each
    /// direction buffers at most `capacity` bytes.
    pub fn pair(capacity: usize) -> (r: LoopbackPair)
        requires
            1 <= capacity,
            capacity <= u32::MAX as usize,
        ensures
            r.wf(),
            r.end_a == fresh_end(),
            r.end_b == fresh_end(),
            r.ab.cap == capacity,
            r.ba.cap == capacity,
            r.inbound(Endpoint::A) =~= Seq::<u8>::empty(),
            r.inbound(Endpoint::B) =~= Seq::<u8>::empty(),
            r.sent_history(Endpoint::A) =~= Seq::<u8>::empty(),
            r.sent_history(Endpoint::B) =~= Seq::<u8>::empty(),
            r.delivered_history(Endpoint::A) =~= Seq::<u8>::empty(),
            r.delivered_history(Endpoint::B) =~= Seq::<u8>::empty(),
    {
        LoopbackPair {
            end_a: new_end(),
            end_b: new_end(),
            ab: ByteChannel::new(capacity),
            ba: ByteChannel::new(capacity),
        }
    }

    /// Whether endpoint `e` is still open.
    pub fn is_open(&self, e: Endpoint) -> (r: bool)
        ensures
            r == self.open_spec(e),
    {
        match e {
            Endpoint::A => self.end_a.is_open,
            Endpoint::B => self.end_b.is_open,
        }
    }

    /// Close endpoint `e`.  Bytes already in flight stay in flight, the
    /// peer stays open, and nothing else changes; but operations on the
    /// peer will fail with an I/O error once its inbound bytes are
    /// drained, rather than hang.
    pub fn close(&mut self, e: Endpoint)
        ensures
            final(self).end_of(e) == (EndDevice { is_open: false, ..old(self).end_of(e) }),
            final(self).end_of(peer_of(e)) == old(self).end_of(peer_of(e)),
            final(self).ab == old(self).ab,
            final(self).ba == old(self).ba,
    {
        match e {
            Endpoint::A => self.end_a.is_open = false,
            Endpoint::B => self.end_b.is_open = false,
        }
    }

    /// Try to read at most `max` bytes at endpoint `e`, never
    /// suspending.  Pending bytes are delivered oldest first.  With
    /// nothing pending the outcome is the distinguished would-block
    /// value while the peer lives, and an I/O failure once the peer is
    /// closed.
    pub fn try_read(&mut self, e: Endpoint, max: usize) -> (r: ReadOutcome)
        requires
            old(self).wf(),
            old(self).open_spec(e),
            1 <= max,
        ensures
            final(self).wf(),
            final(self).end_a == old(self).end_a,
            final(self).end_b == old(self).end_b,
            final(self).chan_from(e) == old(self).chan_from(e),
            final(self).chan_to(e).cap == old(self).chan_to(e).cap,
            final(self).sent_history(peer_of(e)) == old(self).sent_history(peer_of(e)),
            old(self).inbound(e).len() > 0 ==> ({
                let n = min_int(max as int, old(self).inbound(e).len() as int);
                &&& r matches ReadOutcome::Data(v) && v@ == old(self).inbound(e).take(n)
                &&& final(self).inbound(e) == old(self).inbound(e).skip(n)
                &&& final(self).delivered_history(e) == old(self).delivered_history(e)
                    + old(self).inbound(e).take(n)
            }),
            old(self).inbound(e).len() == 0 && old(self).open_spec(peer_of(e)) ==> ({
                &&& r == ReadOutcome::WouldBlock
                &&& final(self).chan_to(e) == old(self).chan_to(e)
            }),
            old(self).inbound(e).len() == 0 && !old(self).open_spec(peer_of(e)) ==> ({
                &&& r == ReadOutcome::Failed(DeviceError::Io(RawErrorKind::BrokenPipe))
                &&& final(self).chan_to(e) == old(self).chan_to(e)
            }),
    {
        match e {
            Endpoint::A => try_read_inner(&mut self.ba, self.end_b.is_open, max),
            Endpoint::B => try_read_inner(&mut self.ab, self.end_a.is_open, max),
        }
    }

    /// Try to write the bytes of `data` at endpoint `e`, never
    /// suspending.  As many leading bytes as fit are accepted; a full
    /// link gives the distinguished would-block value, and a closed peer
    /// an I/O failure.  An empty `data` is accepted vacuously.
    pub fn try_write(&mut self, e: Endpoint, data: &Vec<u8>) -> (r: WriteOutcome)
        requires
            old(self).wf(),
            old(self).open_spec(e),
        ensures
            final(self).wf(),
            final(self).end_a == old(self).end_a,
            final(self).end_b == old(self).end_b,
            final(self).chan_to(e) == old(self).chan_to(e),
            final(self).chan_from(e).cap == old(self).chan_from(e).cap,
            final(self).delivered_history(peer_of(e)) == old(self).delivered_history(peer_of(e)),
            !old(self).open_spec(peer_of(e)) ==> ({
                &&& r == WriteOutcome::Failed(DeviceError::Io(RawErrorKind::BrokenPipe))
                &&& final(self).chan_from(e) == old(self).chan_from(e)
            }),
            old(self).open_spec(peer_of(e)) && data@.len() == 0 ==> ({
                &&& r == WriteOutcome::Accepted(0)
                &&& final(self).chan_from(e) == old(self).chan_from(e)
            }),
            old(self).open_spec(peer_of(e)) && data@.len() > 0 && old(self).chan_from(e).cap
                == old(self).outbound(e).len() ==> ({
                &&& r == WriteOutcome::WouldBlock
                &&& final(self).chan_from(e) == old(self).chan_from(e)
            }),
            old(self).open_spec(peer_of(e)) && data@.len() > 0 && old(self).outbound(e).len()
                < old(self).chan_from(e).cap ==> ({
                let n = min_int(
                    data@.len() as int,
                    old(self).chan_from(e).cap - old(self).outbound(e).len(),
                );
                &&& r == WriteOutcome::Accepted(n as usize)
                &&& 1 <= n
                &&& final(self).outbound(e) == old(self).outbound(e) + data@.take(n)
                &&& final(self).sent_history(e) == old(self).sent_history(e) + data@.take(n)
            }),
    {
        match e {
            Endpoint::A => try_write_inner(&mut self.ab, self.end_b.is_open, data),
            Endpoint::B => try_write_inner(&mut self.ba, self.end_a.is_open, data),
        }
    }
}

/// Whether two endpoint states differ at most in the read direction's
/// readiness slot.
pub open spec fn same_except_read_ready(pre: EndDevice, post: EndDevice) -> bool {
    post == (EndDevice { read_ready: post.read_ready, ..pre })
}

/// Whether two endpoint states differ at most in the write direction's
/// readiness slot.
pub open spec fn same_except_write_ready(pre: EndDevice, post: EndDevice) -> bool {
    post == (EndDevice { write_ready: post.write_ready, ..pre })
}

impl LoopbackPair {
    /// Poll a read of at most `max` bytes at endpoint `e` on behalf of
    /// task `waiter`: the suspend-until-ready retry loop of an
    /// asynchronous read, run to its decision.  Pending bytes are
    /// delivered oldest first and readiness stays cached; with nothing
    /// pending and the peer closed the poll fails; with nothing pending
    /// and the peer alive, any stale cached readiness is cleared (the
    /// generation advances) and `waiter` is registered, replacing any
    /// previous waiter of the read direction.
    pub fn poll_read(&mut self, e: Endpoint, waiter: u64, max: usize) -> (r: PollRead)
        requires
            old(self).wf(),
            old(self).open_spec(e),
            1 <= max,
        ensures
            final(self).wf(),
            final(self).end_of(peer_of(e)) == old(self).end_of(peer_of(e)),
            same_except_read_ready(old(self).end_of(e), final(self).end_of(e)),
            final(self).chan_from(e) == old(self).chan_from(e),
            final(self).chan_to(e).cap == old(self).chan_to(e).cap,
            final(self).sent_history(peer_of(e)) == old(self).sent_history(peer_of(e)),
            old(self).inbound(e).len() > 0 ==> ({
                let n = min_int(max as int, old(self).inbound(e).len() as int);
                &&& r matches PollRead::Delivered(v) && v@ == old(self).inbound(e).take(n)
                &&& final(self).inbound(e) == old(self).inbound(e).skip(n)
                &&& final(self).delivered_history(e) == old(self).delivered_history(e)
                    + old(self).inbound(e).take(n)
                &&& final(self).end_of(e).read_ready == (DirectionReadiness {
                    state: DirState::Ready,
                    generation: old(self).end_of(e).read_ready.generation,
                })
            }),
            old(self).inbound(e).len() == 0 && !old(self).open_spec(peer_of(e)) ==> ({
                &&& r == PollRead::Failed(DeviceError::Io(RawErrorKind::BrokenPipe))
                &&& final(self).chan_to(e) == old(self).chan_to(e)
                &&& final(self).end_of(e).read_ready == (DirectionReadiness {
                    state: DirState::Ready,
                    generation: old(self).end_of(e).read_ready.generation,
                })
            }),
            old(self).inbound(e).len() == 0 && old(self).open_spec(peer_of(e)) ==> ({
                &&& r == PollRead::Pending
                &&& final(self).chan_to(e) == old(self).chan_to(e)
                &&& final(self).end_of(e).read_ready.state == DirState::Awaiting(waiter)
                &&& final(self).end_of(e).read_ready.generation == (
                    if old(self).end_of(e).read_ready.state == DirState::Ready {
                        next_generation(old(self).end_of(e).read_ready.generation)
                    } else {
                        old(self).end_of(e).read_ready.generation
                    })
            }),
    {
        match e {
            Endpoint::A => poll_read_inner(
                &mut self.end_a.read_ready,
                &mut self.ba,
                self.end_b.is_open,
                waiter,
                max,
            ),
            Endpoint::B => poll_read_inner(
                &mut self.end_b.read_ready,
                &mut self.ab,
                self.end_a.is_open,
                waiter,
                max,
            ),
        }
    }

    /// Poll a write of `data` at endpoint `e` on behalf of task
    /// `waiter`: the suspend-until-ready retry loop of an asynchronous
    /// write, run to its decision.  What fits is accepted and readiness
    /// stays cached; a closed peer fails the poll; a full link clears
    /// any stale cached readiness (the generation advances) and
    /// registers `waiter`, replacing any previous waiter of the write
    /// direction.
    pub fn poll_write(&mut self, e: Endpoint, waiter: u64, data: &Vec<u8>) -> (r: PollWrite)
        requires
            old(self).wf(),
            old(self).open_spec(e),
        ensures
            final(self).wf(),
            final(self).end_of(peer_of(e)) == old(self).end_of(peer_of(e)),
            same_except_write_ready(old(self).end_of(e), final(self).end_of(e)),
            final(self).chan_to(e) == old(self).chan_to(e),
            final(self).chan_from(e).cap == old(self).chan_from(e).cap,
            final(self).delivered_history(peer_of(e)) == old(self).delivered_history(peer_of(e)),
            !old(self).open_spec(peer_of(e)) ==> ({
                &&& r == PollWrite::Failed(DeviceError::Io(RawErrorKind::BrokenPipe))
                &&& final(self).chan_from(e) == old(self).chan_from(e)
                &&& final(self).end_of(e).write_ready == (DirectionReadiness {
                    state: DirState::Ready,
                    generation: old(self).end_of(e).write_ready.generation,
                })
            }),
            old(self).open_spec(peer_of(e)) && data@.len() == 0 ==> ({
                &&& r == PollWrite::Accepted(0)
                &&& final(self).chan_from(e) == old(self).chan_from(e)
                &&& final(self).end_of(e).write_ready == old(self).end_of(e).write_ready
            }),
            old(self).open_spec(peer_of(e)) && data@.len() > 0 && old(self).outbound(e).len()
                < old(self).chan_from(e).cap ==> ({
                let n = min_int(
                    data@.len() as int,
                    old(self).chan_from(e).cap - old(self).outbound(e).len(),
                );
                &&& r == PollWrite::Accepted(n as usize)
                &&& 1 <= n
                &&& final(self).outbound(e) == old(self).outbound(e) + data@.take(n)
                &&& final(self).sent_history(e) == old(self).sent_history(e) + data@.take(n)
                &&& final(self).end_of(e).write_ready == (DirectionReadiness {
                    state: DirState::Ready,
                    generation: old(self).end_of(e).write_ready.generation,
                })
            }),
            old(self).open_spec(peer_of(e)) && data@.len() > 0 && old(self).outbound(e).len()
                == old(self).chan_from(e).cap ==> ({
                &&& r == PollWrite::Pending
                &&& final(self).chan_from(e) == old(self).chan_from(e)
                &&& final(self).end_of(e).write_ready.state == DirState::Awaiting(waiter)
                &&& final(self).end_of(e).write_ready.generation == (
                    if old(self).end_of(e).write_ready.state == DirState::Ready {
                        next_generation(old(self).end_of(e).write_ready.generation)
                    } else {
                        old(self).end_of(e).write_ready.generation
                    })
            }),
    {
        match e {
            Endpoint::A => poll_write_inner(
                &mut self.end_a.write_ready,
                &mut self.ab,
                self.end_b.is_open,
                waiter,
                data,
            ),
            Endpoint::B => poll_write_inner(
                &mut self.end_b.write_ready,
                &mut self.ba,
                self.end_a.is_open,
                waiter,
                data,
            ),
        }
    }

    /// Drop the registration left by a cancelled (dropped) read at
    /// endpoint `e`.  Only the read direction's waiter slot changes:
    /// the link, both endpoints' settings, and every byte in flight are
    /// untouched, so a later read at `e` behaves as if the cancelled
    /// one had never been issued.
    pub fn cancel_read(&mut self, e: Endpoint)
        ensures
            final(self).end_of(e).read_ready == cancel_spec(old(self).end_of(e).read_ready),
            same_except_read_ready(old(self).end_of(e), final(self).end_of(e)),
            final(self).end_of(peer_of(e)) == old(self).end_of(peer_of(e)),
            final(self).ab == old(self).ab,
            final(self).ba == old(self).ba,
    {
        match e {
            Endpoint::A => self.end_a.read_ready.cancel(),
            Endpoint::B => self.end_b.read_ready.cancel(),
        }
    }

    /// Drop the registration left by a cancelled (dropped) write at
    /// endpoint `e`.  Only the write direction's waiter slot changes.
    pub fn cancel_write(&mut self, e: Endpoint)
        ensures
            final(self).end_of(e).write_ready == cancel_spec(old(self).end_of(e).write_ready),
            same_except_write_ready(old(self).end_of(e), final(self).end_of(e)),
            final(self).end_of(peer_of(e)) == old(self).end_of(peer_of(e)),
            final(self).ab == old(self).ab,
            final(self).ba == old(self).ba,
    {
        match e {
            Endpoint::A => self.end_a.write_ready.cancel(),
            Endpoint::B => self.end_b.write_ready.cancel(),
        }
    }

    /// Wait for endpoint `e` to become readable on behalf of `waiter`,
    /// without reading.  Resolves (true) when bytes are pending, when
    /// the peer is gone, or when readiness is still cached from before
    /// — so a resolution is a hint, not a guarantee: a racing reader
    /// may drain the link before the caller's own attempt, which then
    /// reports would-block.  Otherwise registers `waiter`, replacing
    /// any previous waiter of the read direction.
    pub fn readable(&mut self, e: Endpoint, waiter: u64) -> (r: bool)
        requires
            old(self).wf(),
            old(self).open_spec(e),
        ensures
            final(self).wf(),
            r == (old(self).end_of(e).read_ready.state == DirState::Ready || old(self).inbound(
                e,
            ).len() > 0 || !old(self).open_spec(peer_of(e))),
            same_except_read_ready(old(self).end_of(e), final(self).end_of(e)),
            final(self).end_of(peer_of(e)) == old(self).end_of(peer_of(e)),
            final(self).ab == old(self).ab,
            final(self).ba == old(self).ba,
            r ==> final(self).end_of(e).read_ready == (DirectionReadiness {
                state: DirState::Ready,
                generation: old(self).end_of(e).read_ready.generation,
            }),
            !r ==> final(self).end_of(e).read_ready == (DirectionReadiness {
                state: DirState::Awaiting(waiter),
                generation: old(self).end_of(e).read_ready.generation,
            }),
    {
        let truth = match e {
            Endpoint::A => self.ba.len() > 0 || !self.end_b.is_open,
            Endpoint::B => self.ab.len() > 0 || !self.end_a.is_open,
        };
        match e {
            Endpoint::A => arm_or_resolve(&mut self.end_a.read_ready, truth, waiter),
            Endpoint::B => arm_or_resolve(&mut self.end_b.read_ready, truth, waiter),
        }
    }

    /// Wait for endpoint `e` to become writable on behalf of `waiter`,
    /// without writing.  Resolves (true) when the link has space, when
    /// the peer is gone, or when readiness is still cached from before
    /// — a hint, exactly as `readable` is.  Otherwise registers
    /// `waiter`, replacing any previous waiter of the write direction.
    pub fn writable(&mut self, e: Endpoint, waiter: u64) -> (r: bool)
        requires
            old(self).wf(),
            old(self).open_spec(e),
        ensures
            final(self).wf(),
            r == (old(self).end_of(e).write_ready.state == DirState::Ready || old(self).outbound(
                e,
            ).len() < old(self).chan_from(e).cap || !old(self).open_spec(peer_of(e))),
            same_except_write_ready(old(self).end_of(e), final(self).end_of(e)),
            final(self).end_of(peer_of(e)) == old(self).end_of(peer_of(e)),
            final(self).ab == old(self).ab,
            final(self).ba == old(self).ba,
            r ==> final(self).end_of(e).write_ready == (DirectionReadiness {
                state: DirState::Ready,
                generation: old(self).end_of(e).write_ready.generation,
            }),
            !r ==> final(self).end_of(e).write_ready == (DirectionReadiness {
                state: DirState::Awaiting(waiter),
                generation: old(self).end_of(e).write_ready.generation,
            }),
    {
        let truth = match e {
            Endpoint::A => self.ab.len() < self.ab.cap || !self.end_b.is_open,
            Endpoint::B => self.ba.len() < self.ba.cap || !self.end_a.is_open,
        };
        match e {
            Endpoint::A => arm_or_resolve(&mut self.end_a.write_ready, truth, waiter),
            Endpoint::B => arm_or_resolve(&mut self.end_b.write_ready, truth, waiter),
        }
    }

    /// Poll a flush at endpoint `e` on behalf of `waiter`.  The flush
    /// resolves once every byte written at `e` has been taken by the
    /// peer; while bytes are still in flight it fails if the peer is
    /// gone (they can never drain) and otherwise registers `waiter` in
    /// the write direction's slot, replacing any previous waiter.
    pub fn poll_flush(&mut self, e: Endpoint, waiter: u64) -> (r: PollFlush)
        requires
            old(self).wf(),
            old(self).open_spec(e),
        ensures
            final(self).wf(),
            final(self).end_of(peer_of(e)) == old(self).end_of(peer_of(e)),
            same_except_write_ready(old(self).end_of(e), final(self).end_of(e)),
            final(self).ab == old(self).ab,
            final(self).ba == old(self).ba,
            old(self).outbound(e).len() == 0 ==> ({
                &&& r == PollFlush::Flushed
                &&& final(self).end_of(e).write_ready == old(self).end_of(e).write_ready
            }),
            old(self).outbound(e).len() > 0 && !old(self).open_spec(peer_of(e)) ==> ({
                &&& r == PollFlush::Failed(DeviceError::Io(RawErrorKind::BrokenPipe))
                &&& final(self).end_of(e).write_ready == old(self).end_of(e).write_ready
            }),
            old(self).outbound(e).len() > 0 && old(self).open_spec(peer_of(e)) ==> ({
                &&& r == PollFlush::Pending
                &&& final(self).end_of(e).write_ready.state == DirState::Awaiting(waiter)
                &&& final(self).end_of(e).write_ready.generation == (
                    if old(self).end_of(e).write_ready.state == DirState::Ready {
                        next_generation(old(self).end_of(e).write_ready.generation)
                    } else {
                        old(self).end_of(e).write_ready.generation
                    })
            }),
    {
        let drained = match e {
            Endpoint::A => self.ab.len() == 0,
            Endpoint::B => self.ba.len() == 0,
        };
        let peer_open = match e {
            Endpoint::A => self.end_b.is_open,
            Endpoint::B => self.end_a.is_open,
        };
        if drained {
            PollFlush::Flushed
        } else if !peer_open {
            PollFlush::Failed(DeviceError::Io(RawErrorKind::BrokenPipe))
        } else {
            let wr = match e {
                Endpoint::A => &mut self.end_a.write_ready,
                Endpoint::B => &mut self.end_b.write_ready,
            };
            if matches!(wr.state, DirState::Ready) {
                wr.clear_ready();
            }
            let _armed = wr.poll(waiter);
            PollFlush::Pending
        }
    }
}

/// The asynchronous read decision on one direction: deliver pending
/// bytes under cached readiness, fail on a drained link whose peer is
/// gone, or clear stale readiness, register the waiter and suspend.
fn poll_read_inner(
    rd: &mut DirectionReadiness,
    chan: &mut ByteChannel,
    peer_open: bool,
    waiter: u64,
    max: usize,
) -> (r: PollRead)
    requires
        old(chan).wf(),
        1 <= max,
    ensures
        final(chan).wf(),
        final(chan).cap == old(chan).cap,
        final(chan).sent@ == old(chan).sent@,
        old(chan).buf@.len() > 0 ==> ({
            let n = min_int(max as int, old(chan).buf@.len() as int);
            &&& r matches PollRead::Delivered(v) && v@ == old(chan).buf@.take(n)
            &&& final(chan).buf@ == old(chan).buf@.skip(n)
            &&& final(chan).consumed@ == old(chan).consumed@ + old(chan).buf@.take(n)
            &&& *final(rd) == (DirectionReadiness {
                state: DirState::Ready,
                generation: old(rd).generation,
            })
        }),
        old(chan).buf@.len() == 0 && !peer_open ==> ({
            &&& r == PollRead::Failed(DeviceError::Io(RawErrorKind::BrokenPipe))
            &&& *final(chan) == *old(chan)
            &&& *final(rd) == (DirectionReadiness {
                state: DirState::Ready,
                generation: old(rd).generation,
            })
        }),
        old(chan).buf@.len() == 0 && peer_open ==> ({
            &&& r == PollRead::Pending
            &&& *final(chan) == *old(chan)
            &&& final(rd).state == DirState::Awaiting(waiter)
            &&& final(rd).generation == (if old(rd).state == DirState::Ready {
                next_generation(old(rd).generation)
            } else {
                old(rd).generation
            })
        }),
{
    let has_data = chan.len() > 0;
    if has_data || !peer_open {
        let g = rd.generation;
        let _woken = rd.signal(g);
        if has_data {
            let len = chan.len();
            let n = if max < len {
                max
            } else {
                len
            };
            let v = chan.take_bytes(n);
            PollRead::Delivered(v)
        } else {
            PollRead::Failed(DeviceError::Io(RawErrorKind::BrokenPipe))
        }
    } else {
        if matches!(rd.state, DirState::Ready) {
            rd.clear_ready();
        }
        let _armed = rd.poll(waiter);
        PollRead::Pending
    }
}

/// The asynchronous write decision on one direction: accept what fits
/// under cached readiness, fail when the peer is gone, or clear stale
/// readiness, register the waiter and suspend.
fn poll_write_inner(
    rd: &mut DirectionReadiness,
    chan: &mut ByteChannel,
    peer_open: bool,
    waiter: u64,
    data: &Vec<u8>,
) -> (r: PollWrite)
    requires
        old(chan).wf(),
    ensures
        final(chan).wf(),
        final(chan).cap == old(chan).cap,
        final(chan).consumed@ == old(chan).consumed@,
        !peer_open ==> ({
            &&& r == PollWrite::Failed(DeviceError::Io(RawErrorKind::BrokenPipe))
            &&& *final(chan) == *old(chan)
            &&& *final(rd) == (DirectionReadiness {
                state: DirState::Ready,
                generation: old(rd).generation,
            })
        }),
        peer_open && data@.len() == 0 ==> ({
            &&& r == PollWrite::Accepted(0)
            &&& *final(chan) == *old(chan)
            &&& *final(rd) == *old(rd)
        }),
        peer_open && data@.len() > 0 && old(chan).buf@.len() < old(chan).cap ==> ({
            let n = min_int(data@.len() as int, old(chan).cap - old(chan).buf@.len());
            &&& r == PollWrite::Accepted(n as usize)
            &&& 1 <= n
            &&& final(chan).buf@ == old(chan).buf@ + data@.take(n)
            &&& final(chan).sent@ == old(chan).sent@ + data@.take(n)
            &&& *final(rd) == (DirectionReadiness {
                state: DirState::Ready,
                generation: old(rd).generation,
            })
        }),
        peer_open && data@.len() > 0 && old(chan).buf@.len() == old(chan).cap ==> ({
            &&& r == PollWrite::Pending
            &&& *final(chan) == *old(chan)
            &&& final(rd).state == DirState::Awaiting(waiter)
            &&& final(rd).generation == (if old(rd).state == DirState::Ready {
                next_generation(old(rd).generation)
            } else {
                old(rd).generation
            })
        }),
{
    if !peer_open {
        let g = rd.generation;
        let _woken = rd.signal(g);
        PollWrite::Failed(DeviceError::Io(RawErrorKind::BrokenPipe))
    } else if data.len() == 0 {
        PollWrite::Accepted(0)
    } else {
        let space = chan.space();
        if space > 0 {
            let g = rd.generation;
            let _woken = rd.signal(g);
            let n = if data.len() < space {
                data.len()
            } else {
                space
            };
            chan.push_bytes(data, n);
            PollWrite::Accepted(n)
        } else {
            if matches!(rd.state, DirState::Ready) {
                rd.clear_ready();
            }
            let _armed = rd.poll(waiter);
            PollWrite::Pending
        }
    }
}

/// Resolve a readiness wait when `truth` (the level-triggered condition
/// of the direction) holds or readiness is still cached; otherwise
/// register `waiter`.
fn arm_or_resolve(rd: &mut DirectionReadiness, truth: bool, waiter: u64) -> (r: bool)
    ensures
        r == (old(rd).state == DirState::Ready || truth),
        r ==> *final(rd) == (DirectionReadiness {
            state: DirState::Ready,
            generation: old(rd).generation,
        }),
        !r ==> *final(rd) == (DirectionReadiness {
            state: DirState::Awaiting(waiter),
            generation: old(rd).generation,
        }),
{
    if matches!(rd.state, DirState::Ready) {
        true
    } else if truth {
        let g = rd.generation;
        let _woken = rd.signal(g);
        true
    } else {
        let _armed = rd.poll(waiter);
        false
    }
}

/// The state of a freshly created endpoint.
pub open spec fn fresh_end() -> EndDevice {
    EndDevice {
        is_open: true,
        exclusive: false,
        cfg: DeviceConfig {
            baud_rate: 9600,
            data_bits: DataBits::Eight,
            stop_bits: StopBits::One,
            parity: Parity::Disabled,
            flow_control: FlowControl::Disabled,
        },
        lines: LineState { rts: false, dtr: false, break_active: false },
        read_ready: DirectionReadiness { state: DirState::Idle, generation: 0 },
        write_ready: DirectionReadiness { state: DirState::Idle, generation: 0 },
    }
}

/// Build the state of a freshly created endpoint.
fn new_end() -> (r: EndDevice)
    ensures
        r == fresh_end(),
{
    EndDevice {
        is_open: true,
        exclusive: false,
        cfg: DeviceConfig::default_loopback(),
        lines: LineState::idle(),
        read_ready: DirectionReadiness::new(),
        write_ready: DirectionReadiness::new(),
    }
}

impl LoopbackPair {
    /// Law: a loopback link delivers exactly what was written, in write
    /// order, however the writes and reads were chunked.  In every
    /// reachable state, the bytes the peer of `e` has been handed are
    /// precisely the oldest prefix of the bytes `e` wrote, and the
    /// bytes still in flight are precisely the rest — so reading as
    /// many bytes as were written yields the written sequence itself.
    pub proof fn lemma_delivery_in_write_order(self, e: Endpoint)
        requires
            self.wf(),
        ensures
            self.delivered_history(peer_of(e)) == self.sent_history(e).take(
                self.delivered_history(peer_of(e)).len() as int,
            ),
            self.inbound(peer_of(e)) == self.sent_history(e).skip(
                self.delivered_history(peer_of(e)).len() as int,
            ),
    {
        self.chan_from(e).lemma_consumed_is_sent_prefix();
    }

    /// Law: dropping a suspended read does not corrupt the stream.
    /// `pre` and `post` are the states around `cancel_read(e)`, related
    /// exactly as its contract states.  Every observable of the link —
    /// well-formedness, liveness of both ends, the bytes in flight and
    /// both histories in both directions — is the same afterwards; only
    /// the read direction's waiter slot changed.  With the contract of
    /// `poll_read`, which delivers whenever bytes are pending whatever
    /// the waiter slot holds, a read issued after the cancellation
    /// still succeeds once data is available.
    pub proof fn lemma_cancelled_read_preserves_stream(
        pre: LoopbackPair,
        post: LoopbackPair,
        e: Endpoint,
    )
        requires
            post.end_of(e).read_ready == cancel_spec(pre.end_of(e).read_ready),
            same_except_read_ready(pre.end_of(e), post.end_of(e)),
            post.end_of(peer_of(e)) == pre.end_of(peer_of(e)),
            post.ab == pre.ab,
            post.ba == pre.ba,
        ensures
            post.wf() == pre.wf(),
            post.open_spec(e) == pre.open_spec(e),
            post.open_spec(peer_of(e)) == pre.open_spec(peer_of(e)),
            post.inbound(e) == pre.inbound(e),
            post.outbound(e) == pre.outbound(e),
            post.sent_history(e) == pre.sent_history(e),
            post.sent_history(peer_of(e)) == pre.sent_history(peer_of(e)),
            post.delivered_history(e) == pre.delivered_history(e),
            post.delivered_history(peer_of(e)) == pre.delivered_history(peer_of(e)),
    {
    }
}

/// The read attempt on one channel: deliver the oldest bytes, or report
/// would-block, or fail once the peer is gone and the channel drained.
fn try_read_inner(chan: &mut ByteChannel, peer_open: bool, max: usize) -> (r: ReadOutcome)
    requires
        old(chan).wf(),
        1 <= max,
    ensures
        final(chan).wf(),
        final(chan).cap == old(chan).cap,
        final(chan).sent@ == old(chan).sent@,
        old(chan).buf@.len() > 0 ==> ({
            let n = min_int(max as int, old(chan).buf@.len() as int);
            &&& r matches ReadOutcome::Data(v) && v@ == old(chan).buf@.take(n)
            &&& final(chan).buf@ == old(chan).buf@.skip(n)
            &&& final(chan).consumed@ == old(chan).consumed@ + old(chan).buf@.take(n)
        }),
        old(chan).buf@.len() == 0 && peer_open ==> r == ReadOutcome::WouldBlock && *final(chan)
            == *old(chan),
        old(chan).buf@.len() == 0 && !peer_open ==> r == ReadOutcome::Failed(
            DeviceError::Io(RawErrorKind::BrokenPipe),
        ) && *final(chan) == *old(chan),
{
    let len = chan.len();
    if len > 0 {
        let n = if max < len {
            max
        } else {
            len
        };
        let v = chan.take_bytes(n);
        ReadOutcome::Data(v)
    } else if peer_open {
        ReadOutcome::WouldBlock
    } else {
        ReadOutcome::Failed(DeviceError::Io(RawErrorKind::BrokenPipe))
    }
}

/// The write attempt on one channel: accept what fits, or report
/// would-block on a full channel, or fail once the peer is gone.
fn try_write_inner(chan: &mut ByteChannel, peer_open: bool, data: &Vec<u8>) -> (r: WriteOutcome)
    requires
        old(chan).wf(),
    ensures
        final(chan).wf(),
        final(chan).cap == old(chan).cap,
        final(chan).consumed@ == old(chan).consumed@,
        !peer_open ==> r == WriteOutcome::Failed(DeviceError::Io(RawErrorKind::BrokenPipe))
            && *final(chan) == *old(chan),
        peer_open && data@.len() == 0 ==> r == WriteOutcome::Accepted(0) && *final(chan) == *old(
            chan,
        ),
        peer_open && data@.len() > 0 && old(chan).buf@.len() == old(chan).cap ==> r
            == WriteOutcome::WouldBlock && *final(chan) == *old(chan),
        peer_open && data@.len() > 0 && old(chan).buf@.len() < old(chan).cap ==> ({
            let n = min_int(data@.len() as int, old(chan).cap - old(chan).buf@.len());
            &&& r == WriteOutcome::Accepted(n as usize)
            &&& 1 <= n
            &&& final(chan).buf@ == old(chan).buf@ + data@.take(n)
            &&& final(chan).sent@ == old(chan).sent@ + data@.take(n)
        }),
{
    if !peer_open {
        WriteOutcome::Failed(DeviceError::Io(RawErrorKind::BrokenPipe))
    } else if data.len() == 0 {
        WriteOutcome::Accepted(0)
    } else {
        let space = chan.space();
        if space == 0 {
            WriteOutcome::WouldBlock
        } else {
            let n = if data.len() < space {
                data.len()
            } else {
                space
            };
            chan.push_bytes(data, n);
            WriteOutcome::Accepted(n)
        }
    }
}

} // verus!
