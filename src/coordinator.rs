//! The coordinator's polling decisions.
use vstd::prelude::*;

verus! {

/// What the coordinator does on one poll.
#[derive(Debug, Clone, Copy, PartialEq, Eq, Structural)]
pub enum CoordinatorAction {
    /// Set the stop signal, print the shutdown notice, and join every worker.
    Shutdown,
    /// Read the shared counter, print it, and subtract what was read.
    Report,
    /// Sleep briefly and poll again.
    Idle,
}

/// The coordinator's state: whether the stop signal has been raised.
pub struct Coordinator {
    stop_sent: bool,
}

impl Coordinator {
    pub closed spec fn stop_sent_spec(&self) -> bool {
        self.stop_sent
    }

    pub fn new() -> (r: Coordinator)
        ensures
            !r.stop_sent_spec(),
    {
        Coordinator { stop_sent: false }
    }

    pub fn stop_sent(&self) -> (r: bool)
        ensures
            r == self.stop_sent_spec(),
    {
        self.stop_sent
    }

    /// One poll, checked in priority order: a shutdown request, then a fired
    /// reporting timer, else idle. Once the stop signal has been raised it
    /// stays raised, and is never raised a second time: later polls answer
    /// `Idle`.
    pub fn poll(&mut self, shutdown_requested: bool, tick_fired: bool) -> (r: CoordinatorAction)
        ensures
            old(self).stop_sent_spec() ==> r == CoordinatorAction::Idle
                && final(self).stop_sent_spec(),
            !old(self).stop_sent_spec() && shutdown_requested ==> r == CoordinatorAction::Shutdown
                && final(self).stop_sent_spec(),
            !old(self).stop_sent_spec() && !shutdown_requested && tick_fired ==> r
                == CoordinatorAction::Report && !final(self).stop_sent_spec(),
            !old(self).stop_sent_spec() && !shutdown_requested && !tick_fired ==> r
                == CoordinatorAction::Idle && !final(self).stop_sent_spec(),
    {
        if self.stop_sent {
            CoordinatorAction::Idle
        } else if shutdown_requested {
            self.stop_sent = true;
            CoordinatorAction::Shutdown
        } else if tick_fired {
            CoordinatorAction::Report
        } else {
            CoordinatorAction::Idle
        }
    }
}

} // verus!
