//! The liveness-probe generator.
//!
//! A remote inspector drops a connection that stays silent for too long. The
//! generator decides, from a monotonic clock reading in seconds, when the next
//! probe is due and which identifier it carries. It owns no timer: the driver
//! asks how long it may sleep, and polls the generator when it wakes up.

use vstd::prelude::*;
use crate::protocol::{ControlMessage, Method, FIRST_PROBE_ID};

verus! {

/// Seconds that pass between two probes.
pub const KEEP_ALIVE_INTERVAL: u64 = 10;

/// The generator's state: the identifier of the next probe, and the clock
/// reading at which the previous one was issued (or at which the generator
/// was started, before the first).
#[derive(Clone, Copy, Debug, PartialEq, Eq, Structural)]
pub struct KeepAlive {
    pub next_id: u64,
    pub last_probe_at: u64,
}

/// What a poll of the generator found.
#[derive(Clone, Copy, Debug, PartialEq, Eq, Structural)]
pub enum Poll {
    /// Less than the interval has passed since the last probe.
    NotDue,
    /// A probe is due: send this message.
    Probe(ControlMessage),
    /// A probe is due, but every identifier has been used.
    Exhausted,
}

impl KeepAlive {
    /// The generator as it is when streaming starts at clock reading `now`.
    pub open spec fn started_at(now: u64) -> KeepAlive {
        KeepAlive { next_id: FIRST_PROBE_ID, last_probe_at: now }
    }

    /// A probe is due once a full interval has passed since the last one. A
    /// clock reading that lies before the last probe counts as no time passed.
    pub open spec fn due(self, now: u64) -> bool {
        now - self.last_probe_at >= KEEP_ALIVE_INTERVAL
    }

    /// No identifier is left that is larger than all those handed out.
    pub open spec fn exhausted(self) -> bool {
        self.next_id == u64::MAX
    }

    /// The generator after it has issued a probe at clock reading `now`.
    pub open spec fn advanced(self, now: u64) -> KeepAlive {
        KeepAlive { next_id: (self.next_id + 1) as u64, last_probe_at: now }
    }

    /// Seconds left at `now` until a probe is due; zero when one is due.
    pub open spec fn remaining(self, now: u64) -> int {
        if self.due(now) {
            0
        } else if now < self.last_probe_at {
            KEEP_ALIVE_INTERVAL as int
        } else {
            self.last_probe_at + KEEP_ALIVE_INTERVAL - now
        }
    }

    /// What a poll at `now` finds, and the generator it leaves behind.
    pub open spec fn polled(self, now: u64) -> (KeepAlive, Poll) {
        if !self.due(now) {
            (self, Poll::NotDue)
        } else if self.exhausted() {
            (self, Poll::Exhausted)
        } else {
            (
                self.advanced(now),
                Poll::Probe(ControlMessage { id: self.next_id, method: Method::GetIsolateId }),
            )
        }
    }

    pub fn start(now: u64) -> (generator: KeepAlive)
        ensures
            generator == KeepAlive::started_at(now),
    {
        KeepAlive { next_id: FIRST_PROBE_ID, last_probe_at: now }
    }

    pub fn is_due(&self, now: u64) -> (due: bool)
        ensures
            due == self.due(now),
    {
        now >= self.last_probe_at && now - self.last_probe_at >= KEEP_ALIVE_INTERVAL
    }

    /// How long a driver may sleep at `now` before it has to poll again.
    pub fn wait(&self, now: u64) -> (seconds: u64)
        ensures
            seconds == self.remaining(now),
            seconds <= KEEP_ALIVE_INTERVAL,
            (seconds == 0) == self.due(now),
    {
        if now < self.last_probe_at {
            KEEP_ALIVE_INTERVAL
        } else {
            let elapsed: u64 = now - self.last_probe_at;
            if elapsed >= KEEP_ALIVE_INTERVAL {
                0
            } else {
                KEEP_ALIVE_INTERVAL - elapsed
            }
        }
    }

    /// Issues the next probe if one is due at `now`.
    pub fn poll(&mut self, now: u64) -> (found: Poll)
        ensures
            (*final(self), found) == old(self).polled(now),
    {
        if !self.is_due(now) {
            Poll::NotDue
        } else if self.next_id == u64::MAX {
            Poll::Exhausted
        } else {
            let message = ControlMessage::probe(self.next_id);
            self.next_id = self.next_id + 1;
            self.last_probe_at = now;
            Poll::Probe(message)
        }
    }
}

/// The time to wait is exact: no probe is due before it has passed, and one
/// is due as soon as it has.
pub proof fn lemma_wait_is_exact(generator: KeepAlive, now: u64, later: u64)
    requires
        generator.last_probe_at <= now <= later,
    ensures
        generator.due(later) <==> later - now >= generator.remaining(now),
{
}

/// A probe carries the identifier the generator held, the generator moves on
/// by exactly one, and the clock of the next interval starts at the moment of
/// the probe. A poll that issues no probe leaves the generator as it was.
pub proof fn lemma_poll_counts_by_one(generator: KeepAlive, now: u64)
    ensures
        match generator.polled(now).1 {
            Poll::Probe(message) => {
                &&& message.id == generator.next_id
                &&& message.method == Method::GetIsolateId
                &&& generator.polled(now).0.next_id == generator.next_id + 1
                &&& generator.polled(now).0.last_probe_at == now
                &&& !generator.polled(now).0.due(now)
            },
            _ => generator.polled(now).0 == generator,
        },
{
}

} // verus!
