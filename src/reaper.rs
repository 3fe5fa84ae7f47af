//! The decisions of the background reaper. Its owner runs the loop: between
//! passes it sleeps, then checks the shutdown flag and runs one pass of
//! `DB::reap_expired`, and hands what it saw to `ReaperState::next`.

use vstd::prelude::*;

verus! {

/// Where the reaper stands.
#[derive(Clone, Copy, Debug, PartialEq, Eq, Structural)]
pub enum ReaperState {
    /// Passes run, one per poll interval.
    Running,
    /// The shutdown flag was seen; the worker is about to exit.
    ShuttingDown,
    /// The worker has exited; `ok` is false after a failed pass.
    Exited { ok: bool },
}

/// What the reaper saw at one poll.
#[derive(Clone, Copy, Debug, PartialEq, Eq, Structural)]
pub enum ReaperEvent {
    /// The shutdown flag was set.
    ShutdownSeen,
    /// A pass over the expiration index ended without error.
    PassDone,
    /// A pass failed: a corrupt index key, or a storage or transaction error.
    PassFailed,
}

impl ReaperState {
    /// The state after `event`. A running reaper shuts down on the flag and
    /// exits with an error on a failed pass; a shutting-down one exits
    /// cleanly; an exited one stays as it is.
    pub fn next(self, event: ReaperEvent) -> (r: ReaperState)
        ensures
            self is Running && event is ShutdownSeen ==> r is ShuttingDown,
            self is Running && event is PassDone ==> r is Running,
            self is Running && event is PassFailed ==> r == (ReaperState::Exited { ok: false }),
            self is ShuttingDown ==> r == (ReaperState::Exited { ok: true }),
            self is Exited ==> r == self,
    {
        match self {
            ReaperState::Running => match event {
                ReaperEvent::ShutdownSeen => ReaperState::ShuttingDown,
                ReaperEvent::PassDone => ReaperState::Running,
                ReaperEvent::PassFailed => ReaperState::Exited { ok: false },
            },
            ReaperState::ShuttingDown => ReaperState::Exited { ok: true },
            ReaperState::Exited { ok } => ReaperState::Exited { ok },
        }
    }

    /// Whether the worker should keep polling.
    pub fn is_live(self) -> (r: bool)
        ensures
            r == !(self is Exited),
    {
        !matches!(self, ReaperState::Exited { .. })
    }
}

} // verus!
