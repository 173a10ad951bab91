//! What the states and the end of a process do to it and to the others, field by
//! field.

use vstd::prelude::*;

use crate::laws::lemma_living;
use crate::pid_list::{
    lemma_rank, lemma_with_all, lemma_with_pid, sorted, with_all, with_pid, Pid, INIT_PID,
};
use crate::process::family::{
    adopted, after_exit, after_state, can_notify_parent, can_set_state, living, parent_notified,
    parent_released,
};
use crate::process::state::{State, VForkState};
use crate::process::ProcessView;
use crate::signal::{Signal, SIGNALS_COUNT};

verus! {

/// The init process is the one with the ID 1. A process can be run exactly if it
/// is running and does not wait for a vfork child.
pub proof fn law_init_and_running(p: ProcessView)
    ensures
        p.is_init() <==> p.pid == 1,
        p.can_run() <==> p.state == State::Running && p.vfork_state != VForkState::Waiting,
{
}

/// Setting a state sets that state, unless the process has terminated. When it
/// terminates it can be waited for and gives up its file descriptors. Nothing
/// else of it changes.
pub proof fn law_set_state_effect(p: ProcessView, new_state: State)
    ensures
        ({
            let q = p.with_state(new_state);
            let ends = p.state != State::Zombie && new_state == State::Zombie;
            &&& q.state == (if p.state == State::Zombie {
                State::Zombie
            } else {
                new_state
            })
            &&& ends ==> q.waitable && q.file_descriptors is None
            &&& !ends ==> q.waitable == p.waitable && q.file_descriptors == p.file_descriptors
            &&& q == (ProcessView {
                state: q.state,
                waitable: q.waitable,
                file_descriptors: q.file_descriptors,
                ..p
            })
        }),
{
}

/// Waking resumes a sleeping process. One in any other state stays as it is.
pub proof fn law_wake_effect(p: ProcessView)
    ensures
        p.state == State::Sleeping ==> p.woken() == (ProcessView { state: State::Running, ..p }),
        p.state != State::Sleeping ==> p.woken() == p,
{
}

/// The IDs of the list that are those of existing processes other than `pid`
/// are kept, in the order of the list.
pub proof fn law_living_follows_the_list(
    m: Map<Pid, ProcessView>,
    first: Seq<Pid>,
    second: Seq<Pid>,
    pid: Pid,
    child: Pid,
)
    ensures
        living(m, Seq::empty(), pid) == Seq::<Pid>::empty(),
        living(m, seq![child], pid) == (if m.contains_key(child) && child != pid {
            seq![child]
        } else {
            Seq::empty()
        }),
        living(m, first + second, pid) == living(m, first, pid) + living(m, second, pid),
    decreases second.len(),
{
    assert(seq![child].drop_last() =~= Seq::empty());
    assert(living(m, seq![child].drop_last(), pid) =~= Seq::empty());
    assert(living(m, seq![child], pid) =~= (if m.contains_key(child) && child != pid {
        seq![child]
    } else {
        Seq::empty()
    }));
    if second.len() == 0 {
        assert(first + second =~= first);
    } else {
        law_living_follows_the_list(m, first, second.drop_last(), pid, child);
        assert((first + second).drop_last() =~= first + second.drop_last());
    }
    assert(living(m, first + second, pid) =~= living(m, first, pid) + living(m, second, pid));
}

/// Adding IDs to an ordered list keeps it in order and adds exactly one
/// occurrence of each.
pub proof fn law_ordered_insertion(s: Seq<Pid>, more: Seq<Pid>, pid: Pid)
    requires
        sorted(s),
    ensures
        sorted(with_pid(s, pid)),
        with_pid(s, pid).to_multiset() == s.to_multiset().insert(pid),
        sorted(with_all(s, more)),
        with_all(s, more).to_multiset() == s.to_multiset().add(more.to_multiset()),
    decreases more.len(),
{
    broadcast use vstd::seq_lib::group_to_multiset_ensures;

    lemma_rank(s, pid);
    lemma_with_pid(s, pid);
    lemma_with_all(s, more);
    if more.len() > 0 {
        let rest = more.drop_last();
        law_ordered_insertion(s, rest, pid);
        lemma_with_all(s, rest);
        lemma_rank(with_all(s, rest), more.last());
        assert(rest.push(more.last()) =~= more);
        assert(with_all(s, more).to_multiset() =~= s.to_multiset().add(more.to_multiset()));
    } else {
        assert(with_all(s, more) =~= s);
        assert(s.to_multiset().add(more.to_multiset()) =~= s.to_multiset());
    }
}

/// When a process terminates, each of its children that exists gets the init
/// process as its parent, and the init process lists it once more as a child.
/// Nothing else of any process changes. Setting another state, or the state of a
/// terminated process, changes no other process at all.
pub proof fn law_set_state_on_others(
    m: Map<Pid, ProcessView>,
    p: ProcessView,
    new_state: State,
    pid: Pid,
)
    requires
        !m.contains_key(p.pid),
        can_set_state(m, p, new_state),
        m.contains_key(INIT_PID) ==> m[INIT_PID].wf(),
        m.contains_key(pid),
    ensures
        ({
            let after = after_state(m, p, new_state);
            let a = m[pid];
            let b = after[pid];
            let ends = p.state != State::Zombie && new_state == State::Zombie;
            &&& after.dom() == m.dom()
            &&& !ends ==> b == a
            &&& ends && pid == INIT_PID ==> {
                &&& b == (ProcessView { children: b.children, ..a })
                &&& sorted(b.children)
                &&& b.children.to_multiset() == a.children.to_multiset().add(
                    living(m, p.children, p.pid).to_multiset(),
                )
                &&& forall|c: Pid| #[trigger]
                    b.children.contains(c) <==> a.children.contains(c) || (p.children.contains(c)
                        && m.contains_key(c))
            }
            &&& ends && pid != INIT_PID && p.children.contains(pid) ==> b == (ProcessView {
                parent: Some(INIT_PID),
                ..a
            })
            &&& ends && pid != INIT_PID && !p.children.contains(pid) ==> b == a
        }),
{
    let orphans = living(m, p.children, p.pid);
    lemma_living(m, p.children, p.pid);
    assert(after_state(m, p, new_state).dom() =~= m.dom());
    if p.state != State::Zombie && new_state == State::Zombie {
        lemma_with_all(m[INIT_PID].children, orphans);
        law_ordered_insertion(m[INIT_PID].children, orphans, 0);
    }
}

/// A process can terminate unless it is the init process, as long as the init
/// process exists and is not its child. Any other state can be set at any time.
pub proof fn law_state_can_be_set(m: Map<Pid, ProcessView>, p: ProcessView, new_state: State)
    ensures
        can_set_state(m, p, new_state) <==> p.state == State::Zombie || new_state != State::Zombie
            || (p.pid != 1 && m.contains_key(1) && !p.children.contains(1)),
{
}

/// When a child has something to be waited for, its parent is sent `SIGCHLD`,
/// which is counted and becomes pending unless the parent blocks it, and is
/// woken if it sleeps. A parent in any other state keeps its state, and nothing
/// else of it changes. No other process changes.
pub proof fn law_notification_effect(m: Map<Pid, ProcessView>, p: ProcessView, pid: Pid)
    requires
        can_notify_parent(m, p),
        m.contains_key(pid),
        m[pid].wf(),
    ensures
        ({
            let after = parent_notified(m, p);
            let a = m[pid];
            let b = after[pid];
            let chld = Signal::SIGCHLD.id() as int;
            &&& after.dom() == m.dom()
            &&& p.parent != Some(pid) ==> b == a
            &&& p.parent == Some(pid) ==> {
                &&& b.state == (if a.state == State::Sleeping {
                    State::Running
                } else {
                    a.state
                })
                &&& a.sigmask[chld] ==> b.rusage == a.rusage && b.sigpending == a.sigpending
                &&& !a.sigmask[chld] ==> {
                    &&& b.rusage.ru_nsignals == a.rusage.ru_nsignals + 1
                    &&& b.sigpending.len() == a.sigpending.len()
                    &&& b.sigpending[chld]
                    &&& forall|i: int|
                        0 <= i < SIGNALS_COUNT && i != chld ==> #[trigger] b.sigpending[i]
                            == a.sigpending[i]
                }
                &&& b == (ProcessView {
                    state: b.state,
                    rusage: b.rusage,
                    sigpending: b.sigpending,
                    ..a
                })
            }
        }),
{
    assert(parent_notified(m, p).dom() =~= m.dom());
}

/// A process without a parent can always be waited for. The parent, if there is
/// one, must exist, and be able to count one more signal unless it blocks it.
pub proof fn law_parent_can_be_notified(m: Map<Pid, ProcessView>, p: ProcessView, parent: Pid)
    ensures
        p.parent is None ==> can_notify_parent(m, p),
        p.parent == Some(parent) ==> (can_notify_parent(m, p) <==> m.contains_key(parent) && (
        m[parent].sigmask[Signal::SIGCHLD.id() as int] || m[parent].rusage.ru_nsignals
            < i64::MAX)),
{
}

/// A vfork child that leaves the vfork state does so together with its parent.
/// Nothing else changes, and for any other process nothing at all.
pub proof fn law_reset_vfork_effect(m: Map<Pid, ProcessView>, p: ProcessView, pid: Pid)
    requires
        p.parent matches Some(parent) ==> m.contains_key(parent),
        m.contains_key(pid),
    ensures
        parent_released(m, p).dom() == m.dom(),
        p.vfork_state == VForkState::Executing ==> p.with_vfork_reset() == (ProcessView {
            vfork_state: VForkState::Inactive,
            ..p
        }),
        p.vfork_state != VForkState::Executing ==> p.with_vfork_reset() == p,
        p.vfork_state == VForkState::Executing && p.parent == Some(pid) ==> parent_released(
            m,
            p,
        )[pid] == (ProcessView { vfork_state: VForkState::Inactive, ..m[pid] }),
        p.vfork_state != VForkState::Executing || p.parent != Some(pid) ==> parent_released(
            m,
            p,
        )[pid] == m[pid],
{
    assert(parent_released(m, p).dom() =~= m.dom());
}

/// A process that exits is terminated and can be waited for. It records the low
/// byte of the status, as its exit status or as the signal that ended it, and
/// zero as the other of the two. It gives up its file descriptors and leaves the
/// vfork state. Nothing else of it changes.
pub proof fn law_exit_effect(p: ProcessView, status: u32, signaled: bool)
    ensures
        ({
            let q = p.exited(status, signaled);
            &&& q.state == State::Zombie
            &&& q.waitable
            &&& q.exit_status == (if signaled {
                0
            } else {
                status as int % 256
            })
            &&& q.termsig == (if signaled {
                status as int % 256
            } else {
                0
            })
            &&& q.file_descriptors == (if p.state == State::Zombie {
                p.file_descriptors
            } else {
                None
            })
            &&& q.vfork_state == (if p.vfork_state == VForkState::Executing {
                VForkState::Inactive
            } else {
                p.vfork_state
            })
            &&& q == (ProcessView {
                state: q.state,
                waitable: q.waitable,
                exit_status: q.exit_status,
                termsig: q.termsig,
                file_descriptors: q.file_descriptors,
                vfork_state: q.vfork_state,
                ..p
            })
        }),
{
    assert((status & 0xff) as u8 == status % 256) by (bit_vector);
}

/// What the end of a process does to any other one. Only its children get
/// another parent, and only the init process other children. Only its parent is
/// woken, if it sleeps, and sent `SIGCHLD`, unless it blocks it; it leaves the
/// vfork state if it waited for this process. Any other state stays: a stopped
/// parent stays stopped. Nothing else of any process changes.
pub proof fn law_exit_on_others(m: Map<Pid, ProcessView>, p: ProcessView, pid: Pid)
    requires
        !m.contains_key(p.pid),
        can_set_state(m, p, State::Zombie),
        can_notify_parent(m, p),
        m.contains_key(INIT_PID) ==> m[INIT_PID].wf(),
        m.contains_key(pid),
        m[pid].wf(),
    ensures
        ({
            let after = after_exit(m, p);
            let a = m[pid];
            let b = after[pid];
            let chld = Signal::SIGCHLD.id() as int;
            let is_parent = p.parent == Some(pid);
            let ends = p.state != State::Zombie;
            &&& after.dom() == m.dom()
            &&& b.parent == (if ends && pid != INIT_PID && p.children.contains(pid) {
                Some(INIT_PID)
            } else {
                a.parent
            })
            &&& !(ends && pid == INIT_PID) ==> b.children == a.children
            &&& ends && pid == INIT_PID ==> {
                &&& sorted(b.children)
                &&& b.children.to_multiset() == a.children.to_multiset().add(
                    living(m, p.children, p.pid).to_multiset(),
                )
                &&& forall|c: Pid| #[trigger]
                    b.children.contains(c) <==> a.children.contains(c) || (p.children.contains(c)
                        && m.contains_key(c))
            }
            &&& b.vfork_state == (if is_parent && p.vfork_state == VForkState::Executing {
                VForkState::Inactive
            } else {
                a.vfork_state
            })
            &&& b.state == (if is_parent && a.state == State::Sleeping {
                State::Running
            } else {
                a.state
            })
            &&& !is_parent || a.sigmask[chld] ==> b.rusage == a.rusage && b.sigpending
                == a.sigpending
            &&& is_parent && !a.sigmask[chld] ==> {
                &&& b.rusage.ru_nsignals == a.rusage.ru_nsignals + 1
                &&& b.sigpending.len() == a.sigpending.len()
                &&& b.sigpending[chld]
                &&& forall|i: int|
                    0 <= i < SIGNALS_COUNT && i != chld ==> #[trigger] b.sigpending[i]
                        == a.sigpending[i]
            }
            &&& b == (ProcessView {
                parent: b.parent,
                children: b.children,
                vfork_state: b.vfork_state,
                state: b.state,
                rusage: b.rusage,
                sigpending: b.sigpending,
                ..a
            })
        }),
{
    law_set_state_on_others(m, p, State::Zombie, pid);
    assert(after_exit(m, p).dom() =~= m.dom());
}

/// The state of a parent changes only if it sleeps when its child exits.
pub proof fn law_exit_wakes_only_sleeping_parents(
    m: Map<Pid, ProcessView>,
    p: ProcessView,
    parent: Pid,
)
    requires
        m.contains_key(parent),
        p.parent == Some(parent),
        m[parent].state != State::Sleeping,
    ensures
        after_exit(m, p)[parent].state == m[parent].state,
        parent_notified(m, p)[parent].state == m[parent].state,
        m[parent].notified().state == m[parent].state,
{
}

/// The init process adopts every process that is listed, and no other one.
pub proof fn law_adoption(m: Map<Pid, ProcessView>, orphans: Seq<Pid>, pid: Pid)
    requires
        m.contains_key(INIT_PID),
        m[INIT_PID].wf(),
        m.contains_key(pid),
    ensures
        adopted(m, orphans).dom() == m.dom(),
        pid != INIT_PID ==> adopted(m, orphans)[pid] == (ProcessView {
            parent: if orphans.contains(pid) {
                Some(INIT_PID)
            } else {
                m[pid].parent
            },
            ..m[pid]
        }),
        adopted(m, orphans)[INIT_PID].children.to_multiset()
            == m[INIT_PID].children.to_multiset().add(orphans.to_multiset()),
        sorted(adopted(m, orphans)[INIT_PID].children),
{
    assert(adopted(m, orphans).dom() =~= m.dom());
    law_ordered_insertion(m[INIT_PID].children, orphans, 0);
}

} // verus!
