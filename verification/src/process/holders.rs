//! The memory spaces and file descriptors tables that processes hold.
//!
//! Processes may share a memory space or a file descriptors table. One that a
//! process gives up is to be freed once no process holds it.

use vstd::prelude::*;

use crate::file::FdTableId;
use crate::memory::MemSpaceId;
use crate::pid_list::Pid;
use crate::process::{Process, ProcessView};
use crate::scheduler::Scheduler;

verus! {

/// A memory space and a file descriptors table, as far as there are any.
#[derive(Clone, Copy, Debug, PartialEq, Eq, Structural)]
pub struct References {
    pub mem_space: Option<MemSpaceId>,
    pub file_descriptors: Option<FdTableId>,
}

impl References {
    /// Neither a memory space nor a table.
    pub open spec fn empty() -> References {
        References { mem_space: None, file_descriptors: None }
    }

    /// Returns neither a memory space nor a table.
    pub fn none() -> (res: Self)
        ensures
            res == References::empty(),
    {
        Self { mem_space: None, file_descriptors: None }
    }
}

impl ProcessView {
    /// The memory space and the file descriptors table that the process holds.
    pub open spec fn references(self) -> References {
        References { mem_space: self.mem_space, file_descriptors: self.file_descriptors }
    }
}

/// Some process holds the memory space.
pub open spec fn mem_space_held(m: Map<Pid, ProcessView>, id: MemSpaceId) -> bool {
    exists|pid: Pid| #[trigger] m.contains_key(pid) && m[pid].mem_space == Some(id)
}

/// Some process holds the file descriptors table.
pub open spec fn fds_held(m: Map<Pid, ProcessView>, id: FdTableId) -> bool {
    exists|pid: Pid| #[trigger] m.contains_key(pid) && m[pid].file_descriptors == Some(id)
}

/// What was given up and is held by no process.
pub open spec fn unheld(m: Map<Pid, ProcessView>, given_up: References) -> References {
    References {
        mem_space: match given_up.mem_space {
            Some(id) => if mem_space_held(m, id) {
                None
            } else {
                Some(id)
            },
            None => None,
        },
        file_descriptors: match given_up.file_descriptors {
            Some(id) => if fds_held(m, id) {
                None
            } else {
                Some(id)
            },
            None => None,
        },
    }
}

impl Process {
    /// Returns the memory space and the file descriptors table that the process
    /// holds. A terminated process holds its memory space until it disappears.
    pub fn get_references(&self) -> (res: References)
        ensures
            res == self@.references(),
    {
        References { mem_space: self.get_held_mem_space(), file_descriptors: self.get_fds() }
    }
}

impl Scheduler {
    /// Tells whether a process holds the memory space.
    pub fn holds_mem_space(&self, id: MemSpaceId) -> (res: bool)
        requires
            self.wf(),
        ensures
            res == mem_space_held(self@, id),
    {
        let pids: Vec<Pid> = self.pids();
        let mut i: usize = 0;
        while i < pids.len()
            invariant
                i <= pids.len(),
                self.wf(),
                forall|j: int|
                    0 <= j < i ==> self@.contains_key(#[trigger] pids@[j])
                        ==> self@[pids@[j]].mem_space != Some(id),
            decreases pids.len() - i,
        {
            if let Some(p) = self.get_by_pid(pids[i]) {
                if let Some(held) = p.get_held_mem_space() {
                    if held == id {
                        return true;
                    }
                }
            }
            i += 1;
        }
        assert forall|pid: Pid| #[trigger] self@.contains_key(pid) implies self@[pid].mem_space
            != Some(id) by {
            assert(pids@.contains(pid));
        }
        false
    }

    /// Tells whether a process holds the file descriptors table.
    pub fn holds_fds(&self, id: FdTableId) -> (res: bool)
        requires
            self.wf(),
        ensures
            res == fds_held(self@, id),
    {
        let pids: Vec<Pid> = self.pids();
        let mut i: usize = 0;
        while i < pids.len()
            invariant
                i <= pids.len(),
                self.wf(),
                forall|j: int|
                    0 <= j < i ==> self@.contains_key(#[trigger] pids@[j])
                        ==> self@[pids@[j]].file_descriptors != Some(id),
            decreases pids.len() - i,
        {
            if let Some(p) = self.get_by_pid(pids[i]) {
                if let Some(held) = p.get_fds() {
                    if held == id {
                        return true;
                    }
                }
            }
            i += 1;
        }
        assert forall|pid: Pid| #[trigger]
            self@.contains_key(pid) implies self@[pid].file_descriptors != Some(id) by {
            assert(pids@.contains(pid));
        }
        false
    }

    /// Returns what was given up and is held by no process, and is therefore to
    /// be freed.
    pub fn get_unheld(&self, given_up: References) -> (res: References)
        requires
            self.wf(),
        ensures
            res == unheld(self@, given_up),
    {
        let mem_space: Option<MemSpaceId> = match given_up.mem_space {
            Some(id) => if self.holds_mem_space(id) {
                None
            } else {
                Some(id)
            },
            None => None,
        };
        let file_descriptors: Option<FdTableId> = match given_up.file_descriptors {
            Some(id) => if self.holds_fds(id) {
                None
            } else {
                Some(id)
            },
            None => None,
        };
        References { mem_space, file_descriptors }
    }
}

} // verus!
