//! The scheduler, which holds the processes of the system.

use vstd::prelude::*;

use crate::pid_list;
use crate::pid_list::{strictly_sorted, Pid};
use crate::process::{Process, ProcessView};
use std::collections::BTreeMap;
use vstd::std_specs::iter::IteratorSpec;

verus! {

/// The processes of the system, and the one that is currently running.
#[derive(Debug)]
pub struct Scheduler {
    processes: BTreeMap<Pid, Process>,
    current: Option<Pid>,
}

impl View for Scheduler {
    type V = Map<Pid, ProcessView>;

    closed spec fn view(&self) -> Map<Pid, ProcessView> {
        self.processes@.map_values(|p: Process| p@)
    }
}

impl Scheduler {
    /// The masks of the processes are well-formed bit fields.
    pub closed spec fn masks_wf(&self) -> bool {
        forall|pid: Pid|
            self.processes@.contains_key(pid) ==> (#[trigger] self.processes@[pid]).masks_wf()
    }

    /// Each process is well formed and is held under its own ID.
    pub open spec fn wf(&self) -> bool {
        &&& self.masks_wf()
        &&& forall|pid: Pid| #[trigger]
            self@.contains_key(pid) ==> self@[pid].wf() && self@[pid].pid == pid
    }

    /// The ID of the process that is currently running.
    pub closed spec fn current(&self) -> Option<Pid> {
        self.current
    }

    /// There is a process that is currently running.
    pub open spec fn has_current(&self) -> bool {
        self.current() is Some && self@.contains_key(self.current()->0)
    }

    /// Creates a scheduler without any process.
    pub fn new() -> (res: Self)
        ensures
            res.wf(),
            res@ == Map::<Pid, ProcessView>::empty(),
            res.current() == None::<Pid>,
    {
        let res = Self { processes: BTreeMap::new(), current: None };
        assert(res@ =~= Map::<Pid, ProcessView>::empty());
        res
    }

    /// Tells whether there is a process with ID `pid`.
    pub fn contains(&self, pid: Pid) -> (res: bool)
        ensures
            res == self@.contains_key(pid),
    {
        self.processes.contains_key(&pid)
    }

    /// Returns the process with PID `pid`, if there is one.
    pub fn get_by_pid(&self, pid: Pid) -> (res: Option<&Process>)
        requires
            self.wf(),
        ensures
            match res {
                Some(p) => self@.contains_key(pid) && p@ == self@[pid] && p.wf(),
                None => !self@.contains_key(pid),
            },
    {
        self.processes.get(&pid)
    }

    /// Returns the process with TID `tid`, if there is one.
    pub fn get_by_tid(&self, tid: Pid) -> (res: Option<&Process>)
        requires
            self.wf(),
        ensures
            match res {
                Some(p) => {
                    &&& self@.contains_key(p@.pid)
                    &&& p@ == self@[p@.pid]
                    &&& p@.tid == tid
                    &&& p.wf()
                },
                None => forall|pid: Pid| #[trigger]
                    self@.contains_key(pid) ==> self@[pid].tid != tid,
            },
    {
        self.get_by_pid(tid)
    }

    /// Returns the ID of the process that is currently running, if any.
    pub fn get_current_pid(&self) -> (res: Option<Pid>)
        ensures
            res == self.current(),
    {
        self.current
    }

    /// Sets which process is currently running.
    pub fn set_current_pid(&mut self, pid: Option<Pid>)
        ensures
            final(self)@ == old(self)@,
            final(self).masks_wf() == old(self).masks_wf(),
            final(self).current() == pid,
    {
        self.current = pid;
    }

    /// Returns the process that is currently running, if any.
    pub fn get_current_process(&self) -> (res: Option<&Process>)
        requires
            self.wf(),
        ensures
            match res {
                Some(p) => {
                    &&& self.current() matches Some(pid)
                    &&& self@.contains_key(pid)
                    &&& p@ == self@[pid]
                    &&& p.wf()
                },
                None => self.current() matches Some(pid) ==> !self@.contains_key(pid),
            },
    {
        match self.current {
            Some(pid) => self.get_by_pid(pid),
            None => None,
        }
    }

    /// Takes the process with ID `pid` out of the scheduler, to work on it.
    pub fn take(&mut self, pid: Pid) -> (res: Option<Process>)
        requires
            old(self).wf(),
        ensures
            final(self).wf(),
            final(self)@ == old(self)@.remove(pid),
            final(self).current() == old(self).current(),
            match res {
                Some(p) => old(self)@.contains_key(pid) && p@ == old(self)@[pid] && p.wf(),
                None => !old(self)@.contains_key(pid),
            },
    {
        let res = self.processes.remove(&pid);
        proof {
            assert(self@ =~= old(self)@.remove(pid));
            if res is Some {
                assert(old(self).processes@[pid] == res->0);
                assert(old(self)@.contains_key(pid));
            }
            assert forall|k: Pid| #[trigger] self@.contains_key(k) implies self@[k].wf()
                && self@[k].pid == k by {
                assert(old(self)@.contains_key(k));
            }
        }
        res
    }

    /// Puts a process into the scheduler.
    pub fn put(&mut self, process: Process)
        requires
            old(self).wf(),
            process.wf(),
        ensures
            final(self).wf(),
            final(self)@ == old(self)@.insert(process@.pid, process@),
            final(self).current() == old(self).current(),
    {
        let pid: Pid = process.get_pid();
        let ghost view = process@;
        self.processes.insert(pid, process);
        proof {
            assert(self@ =~= old(self)@.insert(pid, view));
            assert forall|k: Pid| #[trigger] self@.contains_key(k) implies self@[k].wf()
                && self@[k].pid == k by {
                if k != pid {
                    assert(old(self)@.contains_key(k));
                }
            }
        }
    }

    /// Adds a new process. Returns its ID.
    pub fn add_process(&mut self, process: Process) -> (res: Pid)
        requires
            old(self).wf(),
            process.wf(),
            !old(self)@.contains_key(process@.pid),
        ensures
            final(self).wf(),
            final(self)@ == old(self)@.insert(process@.pid, process@),
            final(self).current() == old(self).current(),
            res == process@.pid,
    {
        let pid: Pid = process.get_pid();
        self.put(process);
        pid
    }

    /// Returns the IDs of all processes, in increasing order.
    pub fn pids(&self) -> (res: Vec<Pid>)
        ensures
            strictly_sorted(res@),
            forall|pid: Pid| #[trigger] res@.contains(pid) <==> self@.contains_key(pid),
    {
        let ghost keys = vstd::std_specs::btree::spec_keys_iter(&self.processes).remaining();
        let mut res: Vec<Pid> = Vec::new();
        for pid in iter: self.processes.keys()
            invariant
                iter.seq() == keys,
                keys.no_duplicates(),
                strictly_sorted(res@),
                forall|x: Pid| #[trigger]
                    res@.contains(x) <==> exists|i: int|
                        0 <= i < iter.index() && *#[trigger] keys[i] == x,
        {
            proof {
                assert(*keys[iter.index() as int] == *pid);
                assert(!res@.contains(*pid));
                pid_list::lemma_with_pid(res@, *pid);
            }
            pid_list::insert(&mut res, *pid);
        }
        assert forall|pid: Pid| #[trigger] res@.contains(pid) <==> self@.contains_key(pid) by {
            assert(keys.unref().to_set().contains(pid) <==> self.processes@.contains_key(pid));
            if res@.contains(pid) {
                let i = choose|i: int| 0 <= i < keys.len() && *#[trigger] keys[i] == pid;
                assert(keys.unref()[i] == pid);
            }
            if keys.unref().contains(pid) {
                let i = choose|i: int| 0 <= i < keys.len() && keys.unref()[i] == pid;
                assert(*keys[i] == pid);
            }
        }
        res
    }
}

} // verus!
