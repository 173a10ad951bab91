//! Process groups, parents and children, and the end of processes.

use vstd::prelude::*;

use crate::errno::{Errno, ESRCH};
use crate::pid_list;
use crate::pid_list::{lemma_with_pid, with_all, with_pid, Pid, INIT_PID};
use crate::process::state::{State, VForkState};
use crate::process::{ExitStatus, Process, ProcessView};
use crate::scheduler::Scheduler;
use crate::signal::Signal;

verus! {

impl ProcessView {
    /// The group ID that the process gets when it asks for `pgid`.
    pub open spec fn requested_pgid(self, pgid: Pid) -> Pid {
        if pgid == 0 {
            self.pid
        } else {
            pgid
        }
    }

    /// The process with one more entry in the group it owns.
    pub open spec fn with_member(self, pid: Pid) -> ProcessView {
        ProcessView { process_group: with_pid(self.process_group, pid), ..self }
    }

    /// The process with one entry less in the group it owns.
    pub open spec fn without_member(self, pid: Pid) -> ProcessView {
        ProcessView { process_group: self.process_group.remove_value(pid), ..self }
    }

    /// The process after its state was set to `new_state`. A terminated process
    /// stays so.
    pub open spec fn with_state(self, new_state: State) -> ProcessView {
        if self.state == State::Zombie {
            self
        } else if new_state == State::Zombie {
            ProcessView { state: State::Zombie, file_descriptors: None, waitable: true, ..self }
        } else {
            ProcessView { state: new_state, ..self }
        }
    }

    /// The process, woken up if it was sleeping.
    pub open spec fn woken(self) -> ProcessView {
        if self.state == State::Sleeping {
            ProcessView { state: State::Running, ..self }
        } else {
            self
        }
    }

    /// The process after one of its children got something to be waited for.
    pub open spec fn notified(self) -> ProcessView {
        self.killed(Signal::SIGCHLD, false).woken()
    }

    /// The process after it left the vfork state, if it is a vfork child.
    pub open spec fn with_vfork_reset(self) -> ProcessView {
        if self.vfork_state == VForkState::Executing {
            ProcessView { vfork_state: VForkState::Inactive, ..self }
        } else {
            self
        }
    }

    /// The exit status and terminating signal recorded by an exit.
    pub open spec fn with_exit_code(self, status: u32, signaled: bool) -> ProcessView {
        let code = (status & 0xff) as u8;
        if signaled {
            ProcessView { exit_status: 0, termsig: code, ..self }
        } else {
            ProcessView { exit_status: code, termsig: 0, ..self }
        }
    }

    /// The process after it exited.
    pub open spec fn exited(self, status: u32, signaled: bool) -> ProcessView {
        ProcessView {
            waitable: true,
            ..self.with_exit_code(status, signaled).with_state(State::Zombie).with_vfork_reset()
        }
    }
}

/// The processes other than `p` after `p` moved to the group `target`.
pub open spec fn regrouped(
    m: Map<Pid, ProcessView>,
    p: ProcessView,
    target: Pid,
) -> Map<Pid, ProcessView> {
    let joined = if target != p.pid {
        m.insert(target, m[target].with_member(p.pid))
    } else {
        m
    };
    if p.in_group() && joined.contains_key(p.pgid) {
        joined.insert(p.pgid, joined[p.pgid].without_member(p.pid))
    } else {
        joined
    }
}

/// The children in the list, except `pid` itself, that are among the processes.
pub open spec fn living(m: Map<Pid, ProcessView>, children: Seq<Pid>, pid: Pid) -> Seq<Pid>
    decreases children.len(),
{
    if children.len() == 0 {
        Seq::empty()
    } else {
        let before = living(m, children.drop_last(), pid);
        let child = children.last();
        if child != pid && m.contains_key(child) {
            before.push(child)
        } else {
            before
        }
    }
}

/// The processes after the init process adopted those listed in `orphans`.
pub open spec fn adopted(m: Map<Pid, ProcessView>, orphans: Seq<Pid>) -> Map<Pid, ProcessView> {
    Map::new(
        |pid: Pid| m.contains_key(pid),
        |pid: Pid|
            if pid == INIT_PID {
                ProcessView { children: with_all(m[pid].children, orphans), ..m[pid] }
            } else if orphans.contains(pid) {
                ProcessView { parent: Some(INIT_PID), ..m[pid] }
            } else {
                m[pid]
            },
    )
}

/// The processes other than `p` after the state of `p` was set to `new_state`.
pub open spec fn after_state(
    m: Map<Pid, ProcessView>,
    p: ProcessView,
    new_state: State,
) -> Map<Pid, ProcessView> {
    if p.state != State::Zombie && new_state == State::Zombie {
        adopted(m, living(m, p.children, p.pid))
    } else {
        m
    }
}

/// The state of `p` can be set to `new_state`: the init process does not
/// terminate, and stands ready to adopt the children of those that do.
pub open spec fn can_set_state(m: Map<Pid, ProcessView>, p: ProcessView, new_state: State) -> bool {
    p.state != State::Zombie && new_state == State::Zombie ==> {
        &&& !p.is_init()
        &&& m.contains_key(INIT_PID)
        &&& !p.children.contains(INIT_PID)
    }
}

/// The processes other than `p` after the parent of `p`, if any, was notified.
pub open spec fn parent_notified(m: Map<Pid, ProcessView>, p: ProcessView) -> Map<
    Pid,
    ProcessView,
> {
    match p.parent {
        Some(parent) => m.insert(parent, m[parent].notified()),
        None => m,
    }
}

/// The parent of `p`, if any, can be notified.
pub open spec fn can_notify_parent(m: Map<Pid, ProcessView>, p: ProcessView) -> bool {
    p.parent matches Some(parent) ==> m.contains_key(parent) && m[parent].counts(Signal::SIGCHLD)
}

/// The processes other than `p` after `p` left the vfork state, if it is a
/// vfork child.
pub open spec fn parent_released(m: Map<Pid, ProcessView>, p: ProcessView) -> Map<
    Pid,
    ProcessView,
> {
    if p.vfork_state == VForkState::Executing && p.parent is Some {
        let parent = p.parent->0;
        m.insert(parent, ProcessView { vfork_state: VForkState::Inactive, ..m[parent] })
    } else {
        m
    }
}

/// The processes other than `p` after `p` exited.
pub open spec fn after_exit(m: Map<Pid, ProcessView>, p: ProcessView) -> Map<Pid, ProcessView> {
    parent_notified(parent_released(after_state(m, p, State::Zombie), p), p)
}

impl Process {
    /// Sets the process's group ID to the given value `pgid`. If `pgid` is
    /// zero, the process becomes the owner of its own group.
    ///
    /// If the process that is to own the group does not exist, the function
    /// returns an error and changes nothing.
    pub fn set_pgid(&mut self, sched: &mut Scheduler, pgid: Pid) -> (res: Result<(), Errno>)
        requires
            old(self).wf(),
            old(sched).wf(),
            ({
                let target = old(self)@.requested_pgid(pgid);
                target != old(self)@.pgid && target != old(self)@.pid && old(sched)@.contains_key(
                    target,
                ) ==> !old(sched)@[target].process_group.contains(old(self)@.pid)
            }),
        ensures
            final(self).wf(),
            final(sched).wf(),
            final(sched).current() == old(sched).current(),
            ({
                let p = old(self)@;
                let target = p.requested_pgid(pgid);
                if target == p.pgid {
                    &&& res == Ok::<(), Errno>(())
                    &&& final(self)@ == p
                    &&& final(sched)@ == old(sched)@
                } else if target != p.pid && !old(sched)@.contains_key(target) {
                    &&& res == Err::<(), Errno>(ESRCH)
                    &&& final(self)@ == p
                    &&& final(sched)@ == old(sched)@
                } else {
                    &&& res == Ok::<(), Errno>(())
                    &&& final(self)@ == (ProcessView { pgid: target, ..p })
                    &&& final(sched)@ == regrouped(old(sched)@, p, target)
                }
            }),
    {
        let old_pgid: Pid = self.pgid;
        let new_pgid: Pid = if pgid == 0 { self.pid } else { pgid };
        if old_pgid == new_pgid {
            return Ok(());
        }
        if new_pgid != self.pid {
            // Adding the process to the new group
            if let Some(mut owner) = sched.take(new_pgid) {
                proof {
                    lemma_with_pid(owner@.process_group, self.pid);
                }
                pid_list::insert(&mut owner.process_group, self.pid);
                sched.put(owner);
            } else {
                assert(sched@ =~= old(sched)@);
                return Err(ESRCH);
            }
        }
        // Removing the process from its old group
        if self.is_in_group() {
            if let Some(mut owner) = sched.take(old_pgid) {
                proof {
                    owner@.process_group.index_of_first_ensures(self.pid);
                }
                pid_list::remove(&mut owner.process_group, self.pid);
                sched.put(owner);
            }
        }
        self.pgid = new_pgid;
        Ok(())
    }

    /// Sets the process's state to `new_state`. A terminated process stays so.
    ///
    /// When the process terminates, it gives up its file descriptors, the init
    /// process becomes the parent of its children, and it can be waited for.
    pub fn set_state(&mut self, sched: &mut Scheduler, new_state: State)
        requires
            old(self).wf(),
            old(sched).wf(),
            can_set_state(old(sched)@, old(self)@, new_state),
        ensures
            final(self).wf(),
            final(sched).wf(),
            final(sched).current() == old(sched).current(),
            final(self)@ == old(self)@.with_state(new_state),
            final(sched)@ == after_state(old(sched)@, old(self)@, new_state),
    {
        if self.state == State::Zombie {
            return;
        }
        self.state = new_state;
        if self.state == State::Zombie {
            self.file_descriptors = None;
            self.give_away_children(sched);
            self.waitable = true;
        }
    }

    /// Makes the init process the parent of the children of this process.
    fn give_away_children(&self, sched: &mut Scheduler)
        requires
            self.wf(),
            old(sched).wf(),
            old(sched)@.contains_key(INIT_PID),
            !self@.children.contains(INIT_PID),
        ensures
            final(sched).wf(),
            final(sched).current() == old(sched).current(),
            final(sched)@ == adopted(
                old(sched)@,
                living(old(sched)@, self@.children, self@.pid),
            ),
    {
        let ghost m = sched@;
        let ghost children = self.children@;
        let mut init = match sched.take(INIT_PID) {
            Some(init) => init,
            None => {
                return ;
            },
        };
        let mut i: usize = 0;
        proof {
            assert(children.take(0) =~= Seq::<Pid>::empty());
            assert(adopted(m, Seq::empty()) =~= m);
        }
        while i < self.children.len()
            invariant
                self.wf(),
                sched.wf(),
                sched.current() == old(sched).current(),
                m.contains_key(INIT_PID),
                m[INIT_PID].wf(),
                m[INIT_PID].pid == INIT_PID,
                children == self.children@,
                children == self@.children,
                self@.pid == self.pid,
                !children.contains(INIT_PID),
                i <= children.len(),
                init.wf(),
                sched@ == adopted(m, living(m, children.take(i as int), self.pid)).remove(INIT_PID),
                init@ == (ProcessView {
                    children: with_all(
                        m[INIT_PID].children,
                        living(m, children.take(i as int), self.pid),
                    ),
                    ..m[INIT_PID]
                }),
            decreases self.children.len() - i,
        {
            let child_pid: Pid = self.children[i];
            let ghost done = living(m, children.take(i as int), self.pid);
            proof {
                assert(children.take(i + 1).drop_last() =~= children.take(i as int));
                assert(children[i as int] == child_pid);
                assert(child_pid != INIT_PID);
            }
            if child_pid != self.pid {
                if let Some(mut child) = sched.take(child_pid) {
                    child.parent = Some(INIT_PID);
                    sched.put(child);
                    proof {
                        lemma_contains_push(done, child_pid);
                        assert(done.push(child_pid).drop_last() =~= done);
                    }
                    let _ = init.add_child(child_pid);
                    assert(sched@ =~= adopted(m, done.push(child_pid)).remove(INIT_PID));
                } else {
                    assert(sched@ =~= adopted(m, done).remove(INIT_PID));
                }
            }
            i += 1;
        }
        sched.put(init);
        proof {
            assert(children.take(children.len() as int) =~= children);
            let orphans = living(m, children, self.pid);
            assert(sched@ =~= adopted(m, orphans));
        }
    }

    /// Adds the process with the given PID `pid` as child to the process.
    pub fn add_child(&mut self, pid: Pid) -> (res: Result<(), Errno>)
        requires
            old(self).wf(),
        ensures
            final(self).wf(),
            final(self)@ == (ProcessView {
                children: with_pid(old(self)@.children, pid),
                ..old(self)@
            }),
            res == Ok::<(), Errno>(()),
    {
        proof {
            lemma_with_pid(self.children@, pid);
        }
        pid_list::insert(&mut self.children, pid);
        Ok(())
    }

    /// Removes the process with the given PID `pid` as child to the process.
    pub fn remove_child(&mut self, pid: Pid)
        requires
            old(self).wf(),
        ensures
            final(self).wf(),
            final(self)@ == (ProcessView {
                children: old(self)@.children.remove_value(pid),
                ..old(self)@
            }),
    {
        pid_list::remove(&mut self.children, pid);
    }

    /// Tells whether the process has a child with the given pid.
    pub fn has_child(&self, pid: Pid) -> (res: bool)
        requires
            self.wf(),
        ensures
            res == self@.children.contains(pid),
    {
        match pid_list::search(&self.children, pid) {
            Ok(_) => true,
            Err(_) => false,
        }
    }

    /// Wakes the process if sleeping.
    pub fn wake(&mut self)
        ensures
            old(self).wf() ==> final(self).wf(),
            final(self)@ == old(self)@.woken(),
    {
        if self.state == State::Sleeping {
            self.state = State::Running;
        }
    }

    /// Sets the process waitable with the given signal type `sig_type`, and
    /// wakes its parent.
    pub fn set_waitable(&mut self, sched: &mut Scheduler, sig_type: u8)
        requires
            old(self).wf(),
            old(sched).wf(),
            can_notify_parent(old(sched)@, old(self)@),
        ensures
            final(self).wf(),
            final(sched).wf(),
            final(sched).current() == old(sched).current(),
            final(self)@ == (ProcessView { waitable: true, termsig: sig_type, ..old(self)@ }),
            final(sched)@ == parent_notified(old(sched)@, old(self)@),
    {
        self.waitable = true;
        self.termsig = sig_type;
        // Wake the parent
        if let Some(parent_pid) = self.parent {
            if let Some(mut parent) = sched.take(parent_pid) {
                // The signal is only made pending: there is nothing to execute
                let _ = parent.kill(&Signal::SIGCHLD, false);
                parent.wake();
                sched.put(parent);
            }
        }
        assert(sched@ =~= parent_notified(old(sched)@, old(self)@));
    }

    /// Clears the waitable flag.
    pub fn clear_waitable(&mut self)
        ensures
            old(self).wf() ==> final(self).wf(),
            final(self)@ == (ProcessView { waitable: false, ..old(self)@ }),
    {
        self.waitable = false;
    }

    /// If the process is a vfork child, resets its state and its parent's
    /// state.
    pub fn reset_vfork(&mut self, sched: &mut Scheduler)
        requires
            old(self).wf(),
            old(sched).wf(),
            old(self)@.vfork_state == VForkState::Executing ==> (old(self)@.parent matches Some(
                parent,
            ) ==> old(sched)@.contains_key(parent)),
        ensures
            final(self).wf(),
            final(sched).wf(),
            final(sched).current() == old(sched).current(),
            final(self)@ == old(self)@.with_vfork_reset(),
            final(sched)@ == parent_released(old(sched)@, old(self)@),
    {
        if self.vfork_state != VForkState::Executing {
            return ;
        }
        self.vfork_state = VForkState::Inactive;
        // Resetting the parent's vfork state if needed
        if let Some(parent_pid) = self.parent {
            if let Some(mut parent) = sched.take(parent_pid) {
                parent.vfork_state = VForkState::Inactive;
                sched.put(parent);
            }
        }
        assert(sched@ =~= parent_released(old(sched)@, old(self)@));
    }

    /// Tells whether the process can exit: the init process cannot, and is
    /// needed by the others to adopt their children; the parent, if there is
    /// one, must exist.
    pub fn can_exit(&self, sched: &Scheduler) -> (res: bool)
        requires
            self.wf(),
            sched.wf(),
        ensures
            res == (can_set_state(sched@, self@, State::Zombie) && can_notify_parent(
                sched@,
                self@,
            )),
    {
        if self.state != State::Zombie {
            if self.is_init() || !sched.contains(INIT_PID) || self.has_child(INIT_PID) {
                return false;
            }
        }
        match self.parent {
            Some(parent) => match sched.get_by_pid(parent) {
                Some(parent) => parent.can_receive(&Signal::SIGCHLD),
                None => false,
            },
            None => true,
        }
    }

    /// Exits the process with the given `status`. This function changes the
    /// process's status to `Zombie`.
    /// `signaled` tells whether the process has been terminated by a signal. If
    /// true, `status` is interpreted as the signal number.
    pub fn exit(&mut self, sched: &mut Scheduler, status: u32, signaled: bool)
        requires
            old(self).wf(),
            old(sched).wf(),
            can_set_state(old(sched)@, old(self)@, State::Zombie),
            can_notify_parent(old(sched)@, old(self)@),
        ensures
            final(self).wf(),
            final(sched).wf(),
            final(sched).current() == old(sched).current(),
            final(self)@ == old(self)@.exited(status, signaled),
            final(sched)@ == after_exit(old(sched)@, old(self)@),
    {
        let code: ExitStatus = (status & 0xff) as ExitStatus;
        if signaled {
            self.exit_status = 0;
            self.termsig = code;
        } else {
            self.exit_status = code;
            self.termsig = 0;
        }
        self.set_state(sched, State::Zombie);
        self.reset_vfork(sched);
        let termsig: u8 = self.termsig;
        self.set_waitable(sched, termsig);
    }
}

/// The list with one more element contains that element, and those it
/// contained before.
proof fn lemma_contains_push(s: Seq<Pid>, pid: Pid)
    ensures
        forall|x: Pid| #[trigger] s.push(pid).contains(x) <==> x == pid || s.contains(x),
{
    let t = s.push(pid);
    assert forall|x: Pid| #[trigger] t.contains(x) <==> x == pid || s.contains(x) by {
        assert(t[s.len() as int] == pid);
        if s.contains(x) {
            let i = choose|i: int| 0 <= i < s.len() && s[i] == x;
            assert(t[i] == x);
        }
        if t.contains(x) && x != pid {
            let i = choose|i: int| 0 <= i < t.len() && t[i] == x;
            assert(s[i] == x);
        }
    }
}

} // verus!
