//! The states of a process.

use vstd::prelude::*;

verus! {

/// The state of a process.
#[derive(Clone, Copy, Debug, PartialEq, Eq, Structural)]
pub enum State {
    /// The process is running or waiting for its turn.
    Running,
    /// The process waits for an event.
    Sleeping,
    /// The process was stopped by a signal.
    Stopped,
    /// The process has terminated.
    Zombie,
}

/// The `vfork` operation is similar to `fork`, except that the parent is not
/// executed until the child exits or executes a program. The purpose is to
/// avoid useless copies of memory when the child is created only to execute a
/// program. The child shares the memory space of the parent.
#[derive(Clone, Copy, Debug, PartialEq, Eq, Structural)]
pub enum VForkState {
    /// The process is not in vfork state.
    Inactive,
    /// The process is the parent, waiting for the child.
    Waiting,
    /// The process is the child that the parent waits for.
    Executing,
}

} // verus!
