//! The per-direction readiness slot of the non-blocking conversion layer.
//!
//! Each direction (read, write) of a stream holds at most one outstanding
//! waiter.  Registering a new waiter replaces any previous one, so only
//! the most recently registered waiter for a direction is woken.  A
//! generation counter invalidates stale readiness signals: when a guard
//! observes that the raw operation would still block, the readiness state
//! is cleared and the generation advances, and a reactor signal carrying
//! an older generation is ignored.

use vstd::prelude::*;

verus! {

/// The state of one direction of one stream: nobody waiting, exactly one
/// registered waiter, or readiness reported and not yet consumed.
#[derive(Clone, Copy, Debug, PartialEq, Eq, Structural)]
pub enum DirState {
    /// No interest registered and no readiness cached.
    Idle,
    /// One waiter is registered and will be woken by the next readiness
    /// signal of the current generation.
    Awaiting(u64),
    /// Readiness was reported and has not been cleared since.
    Ready,
}

/// One direction's readiness slot: its state and the generation that a
/// readiness signal must carry to be honored.
#[derive(Clone, Copy, Debug, PartialEq, Eq, Structural)]
pub struct DirectionReadiness {
    /// The waiter slot.
    pub state: DirState,
    /// The current generation; signals for older generations are stale.
    pub generation: u64,
}

/// The generation that follows `g`, rolling over at the top.
pub open spec fn next_generation(g: u64) -> u64 {
    if g == u64::MAX {
        0
    } else {
        (g + 1) as u64
    }
}

/// The slot after a waiter registers: a cached readiness is kept and
/// reported at once; otherwise the new waiter replaces any previous one.
pub open spec fn poll_spec(s: DirectionReadiness, waiter: u64) -> (DirectionReadiness, bool) {
    if s.state == DirState::Ready {
        (s, true)
    } else {
        (DirectionReadiness { state: DirState::Awaiting(waiter), generation: s.generation }, false)
    }
}

/// The slot after the reactor signals readiness with generation `gen`,
/// and the waiter that is to be woken, if any.  A stale signal changes
/// nothing and wakes nobody.
pub open spec fn signal_spec(s: DirectionReadiness, gen: u64) -> (
    DirectionReadiness,
    Option<u64>,
) {
    if gen != s.generation {
        (s, Option::None)
    } else {
        (
            DirectionReadiness { state: DirState::Ready, generation: s.generation },
            match s.state {
                DirState::Awaiting(w) => Option::Some(w),
                _ => Option::None,
            },
        )
    }
}

/// The slot after a guard reports that the raw operation would still
/// block: readiness is cleared and the generation advances, so that a
/// signal raised for the old generation is ignored.
pub open spec fn clear_ready_spec(s: DirectionReadiness) -> DirectionReadiness {
    DirectionReadiness { state: DirState::Idle, generation: next_generation(s.generation) }
}

/// The slot after a suspended waiter is dropped: its registration is
/// removed and nothing else changes.
pub open spec fn cancel_spec(s: DirectionReadiness) -> DirectionReadiness {
    match s.state {
        DirState::Awaiting(_) => DirectionReadiness {
            state: DirState::Idle,
            generation: s.generation,
        },
        _ => s,
    }
}

impl DirectionReadiness {
    /// A fresh slot: idle, generation zero.
    pub fn new() -> (r: DirectionReadiness)
        ensures
            r.state == DirState::Idle,
            r.generation == 0,
    {
        DirectionReadiness { state: DirState::Idle, generation: 0 }
    }

    /// Register `waiter` unless readiness is already cached.  Returns
    /// true when the direction is ready now; otherwise the waiter is
    /// registered, replacing any previous one, and false is returned.
    pub fn poll(&mut self, waiter: u64) -> (ready: bool)
        ensures
            (*final(self), ready) == poll_spec(*old(self), waiter),
    {
        if matches!(self.state, DirState::Ready) {
            true
        } else {
            self.state = DirState::Awaiting(waiter);
            false
        }
    }

    /// Accept a readiness signal carrying generation `gen`.  A signal of
    /// the current generation caches readiness and hands back the
    /// registered waiter so the caller can wake it; a stale signal is
    /// ignored entirely.
    pub fn signal(&mut self, gen: u64) -> (woken: Option<u64>)
        ensures
            (*final(self), woken) == signal_spec(*old(self), gen),
    {
        if gen != self.generation {
            Option::None
        } else {
            let prior = self.state;
            self.state = DirState::Ready;
            match prior {
                DirState::Awaiting(w) => Option::Some(w),
                _ => Option::None,
            }
        }
    }

    /// Drop the cached readiness after the raw operation reported
    /// would-block, advancing the generation so that signals raised for
    /// the old generation are ignored.
    pub fn clear_ready(&mut self)
        ensures
            *final(self) == clear_ready_spec(*old(self)),
    {
        self.state = DirState::Idle;
        self.generation = if self.generation == u64::MAX {
            0
        } else {
            self.generation + 1
        };
    }

    /// Remove the registration of a dropped waiter.  Only the waiter
    /// slot of this direction changes; a cached readiness is kept.
    pub fn cancel(&mut self)
        ensures
            *final(self) == cancel_spec(*old(self)),
    {
        if matches!(self.state, DirState::Awaiting(_)) {
            self.state = DirState::Idle;
        }
    }
}

/// Law: the most recently registered waiter wins.  If `w1` registers and
/// then `w2` registers on the same direction, a readiness signal of the
/// current generation wakes `w2`; `w1` is woken by nothing.
pub proof fn lemma_latest_waiter_wins(s: DirectionReadiness, w1: u64, w2: u64)
    requires
        s.state != DirState::Ready,
    ensures
        ({
            let s1 = poll_spec(s, w1).0;
            let s2 = poll_spec(s1, w2).0;
            signal_spec(s2, s2.generation).1 == Option::Some(w2)
        }),
{
}

/// Law: a stale readiness signal is ignored.  A signal whose generation
/// is not the slot's current one leaves the slot unchanged and wakes
/// nobody.
pub proof fn lemma_stale_signal_ignored(s: DirectionReadiness, gen: u64)
    requires
        gen != s.generation,
    ensures
        signal_spec(s, gen).0 == s,
        signal_spec(s, gen).1 is None,
{
}

/// Law: clearing readiness invalidates the old generation.  As long as
/// the counter has not rolled over, a signal raised for the generation
/// that was current before the clear is stale afterwards, so a spurious
/// wakeup from before the clear cannot mark the direction ready again.
pub proof fn lemma_clear_invalidates_old_generation(s: DirectionReadiness)
    requires
        s.generation < u64::MAX,
    ensures
        signal_spec(clear_ready_spec(s), s.generation).0 == clear_ready_spec(s),
        signal_spec(clear_ready_spec(s), s.generation).1 is None,
{
}

/// Law: cancelling a suspended waiter touches nothing but the waiter
/// slot: the generation is kept, and a cached readiness survives.
pub proof fn lemma_cancel_is_harmless(s: DirectionReadiness)
    ensures
        cancel_spec(s).generation == s.generation,
        (s.state matches DirState::Awaiting(_)) ==> cancel_spec(s).state == DirState::Idle,
        !(s.state matches DirState::Awaiting(_)) ==> cancel_spec(s) == s,
{
}

} // verus!
