//! Cooperative control of one background worker (bulk playback from file
//! or recording to file). Each worker owns its own dedicated agent and is
//! stopped by an advisory request it observes between iterations, never
//! mid-write; requesting a stop while no worker is active is a caller
//! error, not a silent no-op.

use vstd::prelude::*;

verus! {

/// The control half of one background worker.
#[derive(Clone, Copy, PartialEq, Eq, Structural, Debug)]
pub struct WorkerControl {
    /// A worker thread is active.
    pub is_running: bool,
    /// A stop was requested and not yet observed.
    pub stop_pending: bool,
}

impl WorkerControl {
    /// A stop can only be pending while a worker runs.
    pub open spec fn wf(self) -> bool {
        self.stop_pending ==> self.is_running
    }

    pub fn new() -> (r: WorkerControl)
        ensures
            r.wf(),
            !r.is_running,
            !r.stop_pending,
    {
        WorkerControl { is_running: false, stop_pending: false }
    }

    /// Record that a worker thread was spawned; only one runs at a time.
    pub fn start(&mut self)
        requires
            !old(self).is_running,
        ensures
            final(self).wf(),
            final(self).is_running,
            !final(self).stop_pending,
    {
        self.is_running = true;
        self.stop_pending = false;
    }

    /// Record an advisory stop request. Demanding a running worker here
    /// is the contract: a stop with no worker active is a logic error in
    /// the caller, not something to ignore.
    pub fn request_stop(&mut self)
        requires
            old(self).is_running,
        ensures
            final(self).wf(),
            final(self).is_running,
            final(self).stop_pending,
    {
        self.stop_pending = true;
    }

    /// Record that the worker thread was seen finished; the control
    /// returns to idle.
    pub fn observe_finished(&mut self)
        ensures
            final(self).wf(),
            !final(self).is_running,
            !final(self).stop_pending,
    {
        self.is_running = false;
        self.stop_pending = false;
    }
}

} // verus!
