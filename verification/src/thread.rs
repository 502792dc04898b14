//! Thread descriptor stub: the shape of a schedulable task, ahead of
//! any scheduler.

use vstd::prelude::*;

verus! {

#[derive(Clone, Copy, Debug, PartialEq, Eq, Structural)]
pub enum ThreadState {
    Stopped,
    Waiting,
    Running,
}

/// A task's descriptor.
pub struct Thread {
    pub state: ThreadState,
    pub priority: u8,
}

impl Thread {
    /// A fresh task: stopped, at the given priority.
    pub fn new(priority: u8) -> (r: Thread)
        ensures
            r.state == ThreadState::Stopped,
            r.priority == priority,
    {
        Thread { state: ThreadState::Stopped, priority }
    }
}

} // verus!
