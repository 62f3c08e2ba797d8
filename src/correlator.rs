//! The request/response correlator: one publish-and-wait at a time on a
//! channel, resolved by the next acknowledgment or by a timeout.
use vstd::prelude::*;

verus! {

/// Seconds a publish-and-wait waits for its acknowledgment.
pub const RESPONSE_TIMEOUT_SECS: u64 = 10;

/// Where the correlator's single slot stands.
#[derive(Clone, Copy, Debug, PartialEq, Eq, Structural)]
pub enum CorrelatorPhase {
    /// No request in flight; the slot is free.
    Idle,
    /// The slot is taken and the request is being published; `acked` once
    /// an acknowledgment has come.
    Publishing { acked: bool },
    /// The request is out and its caller waits; `acked` once an
    /// acknowledgment has come.
    Awaiting { acked: bool },
}

/// How a publish-and-wait failed.
#[derive(Clone, Copy, Debug, PartialEq, Eq, Structural)]
pub enum CorrelationError {
    /// The publish itself failed.
    Publish,
    /// No acknowledgment came within the timeout.
    Timeout,
}

/// Steps of the correlator protocol, for stating what a run of them does.
pub enum CorrelatorEvent {
    Acquire,
    Published(bool),
    Notify,
    Finish,
}

pub open spec fn step(p: CorrelatorPhase, ev: CorrelatorEvent) -> CorrelatorPhase {
    match (ev, p) {
        (CorrelatorEvent::Acquire, CorrelatorPhase::Idle) => CorrelatorPhase::Publishing {
            acked: false,
        },
        (CorrelatorEvent::Published(ok), CorrelatorPhase::Publishing { acked }) => if ok {
            CorrelatorPhase::Awaiting { acked }
        } else {
            CorrelatorPhase::Idle
        },
        (CorrelatorEvent::Notify, CorrelatorPhase::Publishing { .. }) => CorrelatorPhase::Publishing {
            acked: true,
        },
        (CorrelatorEvent::Notify, CorrelatorPhase::Awaiting { .. }) => CorrelatorPhase::Awaiting {
            acked: true,
        },
        (CorrelatorEvent::Finish, CorrelatorPhase::Awaiting { .. }) => CorrelatorPhase::Idle,
        _ => p,
    }
}

/// The phase after a run of steps.
pub open spec fn run(p: CorrelatorPhase, evs: Seq<CorrelatorEvent>) -> CorrelatorPhase
    decreases evs.len(),
{
    if evs.len() == 0 {
        p
    } else {
        step(run(p, evs.drop_last()), evs.last())
    }
}

/// Whether a step ends the request in flight.
pub open spec fn ends_request(ev: CorrelatorEvent) -> bool {
    ev is Finish || ev == CorrelatorEvent::Published(false)
}

/// The single-slot correlator.
pub struct Correlator {
    phase: CorrelatorPhase,
}

impl Correlator {
    pub closed spec fn phase(&self) -> CorrelatorPhase {
        self.phase
    }

    pub fn new() -> (r: Self)
        ensures
            r.phase() == CorrelatorPhase::Idle,
    {
        Correlator { phase: CorrelatorPhase::Idle }
    }

    /// Takes the slot if it is free: true when the caller may publish now;
    /// false, with nothing changed, when another request is in flight and
    /// the caller must wait for the slot.
    pub fn try_acquire(&mut self) -> (r: bool)
        ensures
            r == (old(self).phase() == CorrelatorPhase::Idle),
            final(self).phase() == step(old(self).phase(), CorrelatorEvent::Acquire),
    {
        match self.phase {
            CorrelatorPhase::Idle => {
                self.phase = CorrelatorPhase::Publishing { acked: false };
                true
            },
            _ => false,
        }
    }

    /// Records the outcome of the publish; a failed publish frees the slot
    /// and is reported as such.
    pub fn published(&mut self, ok: bool) -> (r: Result<(), CorrelationError>)
        requires
            old(self).phase() is Publishing,
        ensures
            final(self).phase() == step(old(self).phase(), CorrelatorEvent::Published(ok)),
            r == (if ok {
                Ok::<(), CorrelationError>(())
            } else {
                Err(CorrelationError::Publish)
            }),
    {
        match self.phase {
            CorrelatorPhase::Publishing { acked } => {
                if ok {
                    self.phase = CorrelatorPhase::Awaiting { acked };
                    Ok(())
                } else {
                    self.phase = CorrelatorPhase::Idle;
                    Err(CorrelationError::Publish)
                }
            },
            _ => Ok(()),
        }
    }

    /// An acknowledgment was observed; true when a request was in flight
    /// to take it.
    pub fn notify_response(&mut self) -> (r: bool)
        ensures
            r == !(old(self).phase() is Idle),
            final(self).phase() == step(old(self).phase(), CorrelatorEvent::Notify),
    {
        match self.phase {
            CorrelatorPhase::Idle => false,
            CorrelatorPhase::Publishing { .. } => {
                self.phase = CorrelatorPhase::Publishing { acked: true };
                true
            },
            CorrelatorPhase::Awaiting { .. } => {
                self.phase = CorrelatorPhase::Awaiting { acked: true };
                true
            },
        }
    }

    /// Whether the request in flight has been acknowledged.
    pub fn acknowledged(&self) -> (r: bool)
        ensures
            r == (self.phase() == CorrelatorPhase::Publishing { acked: true } || self.phase()
                == CorrelatorPhase::Awaiting { acked: true }),
    {
        match self.phase {
            CorrelatorPhase::Publishing { acked } => acked,
            CorrelatorPhase::Awaiting { acked } => acked,
            CorrelatorPhase::Idle => false,
        }
    }

    /// Ends the wait, on an acknowledgment or at the timeout, and frees the
    /// slot: success when the acknowledgment came.
    pub fn finish(&mut self) -> (r: Result<(), CorrelationError>)
        requires
            old(self).phase() is Awaiting,
        ensures
            final(self).phase() == CorrelatorPhase::Idle,
            final(self).phase() == step(old(self).phase(), CorrelatorEvent::Finish),
            r == (if old(self).phase()->Awaiting_acked {
                Ok::<(), CorrelationError>(())
            } else {
                Err(CorrelationError::Timeout)
            }),
    {
        let r = match self.phase {
            CorrelatorPhase::Awaiting { acked } => if acked {
                Ok(())
            } else {
                Err(CorrelationError::Timeout)
            },
            _ => Ok(()),
        };
        self.phase = CorrelatorPhase::Idle;
        r
    }
}

/// Mutual exclusion: once a request holds the slot, no later acquire is
/// granted, whatever acknowledgments and publish successes come, until a
/// step ends that request (its wait finishes or its publish fails).
pub proof fn lemma_mutual_exclusion(evs: Seq<CorrelatorEvent>)
    requires
        forall|i: int| 0 <= i < evs.len() ==> !ends_request(#[trigger] evs[i]),
    ensures
        run(step(CorrelatorPhase::Idle, CorrelatorEvent::Acquire), evs) != CorrelatorPhase::Idle,
        forall|i: int|
            0 <= i < evs.len() ==> (#[trigger] evs[i] is Acquire ==> run(
                step(CorrelatorPhase::Idle, CorrelatorEvent::Acquire),
                evs.take(i),
            ) != CorrelatorPhase::Idle),
    decreases evs.len(),
{
    let start = step(CorrelatorPhase::Idle, CorrelatorEvent::Acquire);
    if evs.len() > 0 {
        let front = evs.drop_last();
        assert forall|i: int| 0 <= i < front.len() implies !ends_request(#[trigger] front[i]) by {
            assert(front[i] == evs[i]);
        }
        lemma_mutual_exclusion(front);
        assert(!ends_request(evs[evs.len() - 1]));
        assert forall|i: int| 0 <= i < evs.len() implies (#[trigger] evs[i] is Acquire ==> run(
            start,
            evs.take(i),
        ) != CorrelatorPhase::Idle) by {
            if i < front.len() {
                assert(evs.take(i) =~= front.take(i));
                assert(front[i] == evs[i]);
            } else {
                assert(evs.take(i) =~= front);
            }
        }
    }
}

} // verus!
