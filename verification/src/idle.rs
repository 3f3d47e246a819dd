//! The idle timeout: a session ends by itself only after the device has sent
//! something and then stayed silent for longer than the configured time.

use vstd::prelude::*;

verus! {

/// What the read loop remembers about the line's activity.
///
/// `last_received` is meaningful only once `received_any` is set. Until
/// then the session is waiting for its first character.
#[derive(Clone, Copy, Debug, PartialEq, Eq, Structural)]
pub struct IdleTracker {
    /// Whether a character has been received since the session began.
    pub received_any: bool,
    /// The clock reading, in milliseconds, at which the last character came.
    pub last_received: u64,
}

/// Where a session stands. It begins waiting, is receiving from the first
/// character on, and never goes back to waiting.
#[derive(Clone, Copy, Debug, PartialEq, Eq, Structural)]
pub enum Phase {
    /// No character has been received yet. The idle timeout cannot fire.
    Waiting,
    /// A character has been received. The idle timeout can fire.
    Receiving,
}

/// Milliseconds from `earlier` to `now`, and zero where the clock reads less
/// than it did at `earlier`.
pub open spec fn elapsed_ms(earlier: u64, now: u64) -> nat {
    if now >= earlier {
        (now - earlier) as nat
    } else {
        0
    }
}

impl IdleTracker {
    /// The tracker of a session that has received nothing yet.
    pub open spec fn initial() -> IdleTracker {
        IdleTracker { received_any: false, last_received: 0 }
    }

    /// The tracker after a character was received at `now`.
    pub open spec fn recorded(self, now: u64) -> IdleTracker {
        IdleTracker { received_any: true, last_received: now }
    }

    /// Where a session with this tracker stands.
    pub open spec fn phase_of(self) -> Phase {
        if self.received_any {
            Phase::Receiving
        } else {
            Phase::Waiting
        }
    }

    /// Whether the session is over at `now`: a timeout is configured,
    /// something has been received, and the silence since then is longer than
    /// the timeout.
    pub open spec fn is_expired(self, timeout: Option<u64>, now: u64) -> bool {
        match timeout {
            Some(limit) => self.received_any && elapsed_ms(self.last_received, now) > limit,
            None => false,
        }
    }

    pub fn new() -> (tracker: IdleTracker)
        ensures
            tracker == IdleTracker::initial(),
    {
        IdleTracker { received_any: false, last_received: 0 }
    }

    /// Notes that a character was received at `now`.
    pub fn record(&mut self, now: u64)
        ensures
            *final(self) == old(self).recorded(now),
    {
        self.received_any = true;
        self.last_received = now;
    }

    /// Where the session stands.
    pub fn phase(&self) -> (phase: Phase)
        ensures
            phase == self.phase_of(),
    {
        if self.received_any {
            Phase::Receiving
        } else {
            Phase::Waiting
        }
    }

    /// How long the line has been silent at `now`, in milliseconds.
    pub fn silence(&self, now: u64) -> (ms: u64)
        ensures
            ms == elapsed_ms(self.last_received, now),
    {
        if now >= self.last_received {
            now - self.last_received
        } else {
            0
        }
    }

    /// Decides whether the idle timeout has fired at `now`.
    pub fn expired(&self, timeout: Option<u64>, now: u64) -> (fired: bool)
        ensures
            fired == self.is_expired(timeout, now),
    {
        match timeout {
            Some(limit) => self.received_any && self.silence(now) > limit,
            None => false,
        }
    }
}

} // verus!
