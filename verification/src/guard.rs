//! The policy of the shared-state guard: how often the lock on a state file
//! is tried, and how long to wait between two tries.

use vstd::prelude::*;

verus! {

/// The number of times that the lock is tried before giving up.
pub const MAX_LOCK_TRIES: usize = 100;

/// The pause after a try that found the lock taken, in milliseconds.
pub const LOCK_RETRY_MILLIS: u64 = 50;

/// What happened since the last action.
#[derive(Clone, Copy, Debug, PartialEq, Eq, Structural)]
pub enum LockEvent {
    /// The acquisition begins.
    Start,
    /// The try got the lock.
    Locked,
    /// The try found the lock taken.
    Busy,
    /// The pause is over.
    Slept,
}

/// What to do next.
#[derive(Clone, Copy, Debug, PartialEq, Eq, Structural)]
pub enum LockAction {
    /// Try to take the lock.
    Try,
    /// The lock is held: load the state.
    Load,
    /// Wait before the next try.
    Sleep { millis: u64 },
    /// Give up with a lock timeout.
    TimedOut,
}

/// An acquisition in progress: the tries that are left.
#[derive(Clone, Copy, Debug, PartialEq, Eq, Structural)]
pub struct LockAcquisition {
    pub tries_left: usize,
}

impl LockAcquisition {
    /// The action that follows an event: a try while tries are left, a
    /// pause after every try that found the lock taken, the load once the
    /// lock is held, and a timeout when no try is left.
    pub open spec fn action_spec(self, event: LockEvent) -> LockAction {
        match event {
            LockEvent::Locked => LockAction::Load,
            LockEvent::Busy => LockAction::Sleep { millis: LOCK_RETRY_MILLIS },
            _ => if self.tries_left > 0 {
                LockAction::Try
            } else {
                LockAction::TimedOut
            },
        }
    }

    /// The acquisition after an event: every try takes one of the tries.
    pub open spec fn after(self, event: LockEvent) -> LockAcquisition {
        if self.action_spec(event) == LockAction::Try {
            LockAcquisition { tries_left: (self.tries_left - 1) as usize }
        } else {
            self
        }
    }

    /// A fresh acquisition with all its tries.
    pub fn new() -> (r: LockAcquisition)
        ensures
            r.tries_left == MAX_LOCK_TRIES,
    {
        LockAcquisition { tries_left: MAX_LOCK_TRIES }
    }

    /// Takes in an event and says what to do next.
    pub fn next_action(&mut self, event: LockEvent) -> (r: LockAction)
        ensures
            r == old(self).action_spec(event),
            *final(self) == old(self).after(event),
    {
        match event {
            LockEvent::Locked => LockAction::Load,
            LockEvent::Busy => LockAction::Sleep { millis: LOCK_RETRY_MILLIS },
            _ => {
                if self.tries_left > 0 {
                    self.tries_left = self.tries_left - 1;
                    LockAction::Try
                } else {
                    LockAction::TimedOut
                }
            },
        }
    }
}

/// The tries that an acquisition makes when every try finds the lock
/// taken: one try and one pause in turn, until no try is left.
pub open spec fn tries_made(acquisition: LockAcquisition) -> nat
    decreases acquisition.tries_left,
{
    if acquisition.tries_left == 0 {
        0
    } else {
        1 + tries_made(acquisition.after(LockEvent::Slept))
    }
}

/// An acquisition that never gets the lock makes exactly as many tries as
/// it had left, and then times out: a fresh one gives up after the bounded
/// number of tries.
pub proof fn lemma_bounded_tries(acquisition: LockAcquisition)
    ensures
        tries_made(acquisition) == acquisition.tries_left,
    decreases acquisition.tries_left,
{
    if acquisition.tries_left > 0 {
        lemma_bounded_tries(acquisition.after(LockEvent::Slept));
    }
}

} // verus!
