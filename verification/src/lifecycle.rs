//! The lifecycle controller: a run flag set once at startup and cleared
//! exactly once on a stop signal. The listener and the dispatch loop read
//! it cooperatively to decide whether to continue.

use vstd::prelude::*;

verus! {

/// A one-shot run flag: it starts raised and, once lowered by
/// `request_stop`, no operation ever raises it again.
pub struct RunFlag {
    running: bool,
}

impl RunFlag {
    /// Whether the process should keep running.
    pub closed spec fn running(&self) -> bool {
        self.running
    }

    /// A fresh flag, raised.
    pub fn new() -> (f: RunFlag)
        ensures
            f.running(),
    {
        RunFlag { running: true }
    }

    /// Read the flag.
    pub fn is_running(&self) -> (b: bool)
        ensures
            b == self.running(),
    {
        self.running
    }

    /// Lower the flag. This is the only operation that changes the flag,
    /// so the transition to stopped happens at most once and is permanent.
    pub fn request_stop(&mut self)
        ensures
            !final(self).running(),
    {
        self.running = false;
    }
}

} // verus!
