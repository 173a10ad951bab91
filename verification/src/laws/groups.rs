//! What moving a process to another group does, list by list.

use vstd::prelude::*;

use crate::laws::{law_remove_undoes_add, lemma_removed, with_process};
use crate::pid_list::{lemma_same_lists, lemma_with_pid, strictly_sorted, Pid};
use crate::process::family::regrouped;
use crate::process::signals::{executions, group_below, lemma_group_below, with_execution};
use crate::process::ProcessView;
use crate::signal::Signal;

verus! {

/// A process is among a group that it does not own exactly if its group ID is
/// neither zero nor its own ID. The group it asks for by zero is its own; the
/// group it asks for by any other number is the one with that number.
pub proof fn law_group_of_a_process(p: ProcessView, pgid: Pid)
    ensures
        p.in_group() <==> p.pgid != 0 && p.pgid != p.pid,
        pgid == 0 ==> p.requested_pgid(pgid) == p.pid,
        pgid != 0 ==> p.requested_pgid(pgid) == pgid,
{
}

/// Moving a process to another group changes no list of members but for that
/// process: every process lists the same others as before, whatever group they
/// are in. The owner of the new group lists the process, the owner of the old
/// one no longer does, and everybody else lists it as before. The lists stay in
/// order, and nothing but them changes.
pub proof fn law_move_changes_only_own_entries(
    m: Map<Pid, ProcessView>,
    p: ProcessView,
    target: Pid,
    x: Pid,
    pid: Pid,
)
    requires
        !m.contains_key(p.pid),
        target != p.pgid,
        target == p.pid || m.contains_key(target),
        m.contains_key(x),
        m[x].wf(),
        x == target ==> !m[x].process_group.contains(p.pid),
    ensures
        ({
            let after = regrouped(m, p, target);
            let a = m[x];
            let b = after[x];
            &&& after.dom() == m.dom()
            &&& b == (ProcessView { process_group: b.process_group, ..a })
            &&& strictly_sorted(b.process_group)
            &&& pid != p.pid ==> (b.process_group.contains(pid) <==> a.process_group.contains(pid))
            &&& x == target ==> b.process_group.contains(p.pid)
            &&& p.in_group() && x == p.pgid ==> !b.process_group.contains(p.pid)
            &&& x != target && !(p.in_group() && x == p.pgid) ==> b == a
            &&& b.process_group.len() == a.process_group.len() + (if x == target {
                1int
            } else if p.in_group() && x == p.pgid && a.process_group.contains(p.pid) {
                -1int
            } else {
                0int
            })
        }),
{
    let after = regrouped(m, p, target);
    assert(after.dom() =~= m.dom());
    if x == target {
        lemma_with_pid(m[x].process_group, p.pid);
    } else if p.in_group() && x == p.pgid {
        let s = m[x].process_group;
        lemma_removed(s, p.pid);
        s.index_of_first_ensures(p.pid);
        let t = s.remove_value(p.pid);
        assert forall|i: int, j: int| 0 <= i < j < t.len() implies t[i] < t[j] by {
            if s.contains(p.pid) {
                let k = s.index_of_first(p.pid)->0;
                assert(t[i] == s[if i < k {
                    i
                } else {
                    i + 1
                }]);
                assert(t[j] == s[if j < k {
                    j
                } else {
                    j + 1
                }]);
            }
        }
    }
}

/// A process that joins a group and leaves it again leaves all lists of members
/// as they were.
pub proof fn law_leaving_undoes_joining(m: Map<Pid, ProcessView>, p: ProcessView, target: Pid)
    requires
        !m.contains_key(p.pid),
        p.pgid == p.pid,
        target != p.pid,
        target != 0,
        m.contains_key(target),
        m[target].wf(),
        !m[target].process_group.contains(p.pid),
    ensures
        ({
            let joined = regrouped(m, p, target);
            regrouped(joined, ProcessView { pgid: target, ..p }, p.pid) == m
        }),
{
    let joined = regrouped(m, p, target);
    let back = regrouped(joined, ProcessView { pgid: target, ..p }, p.pid);
    law_remove_undoes_add(m[target].process_group, p.pid);
    assert(back[target] =~= m[target]);
    assert(back =~= m);
}

/// A signal sent to the group of a process is executed in the order of the IDs
/// of its other members, and for the process itself at last.
pub proof fn law_group_executions(
    m: Map<Pid, ProcessView>,
    p: ProcessView,
    sig: Signal,
    no_handler: bool,
    list: Seq<Pid>,
)
    requires
        strictly_sorted(list),
        forall|q: Pid| #[trigger]
            list.contains(q) <==> m.contains_key(q) && q != p.pid && m[q].pgid == p.pgid,
    ensures
        ({
            let first = executions(m, list, sig, no_handler);
            let all = with_execution(
                executions(m, group_below(m, p, u16::MAX + 1), sig, no_handler),
                p.execution(sig, no_handler),
            );
            &&& p.execution(sig, no_handler) is None ==> all == first
            &&& p.execution(sig, no_handler) matches Some(e) ==> all == first.push(e)
        }),
{
    let found = group_below(m, p, u16::MAX + 1);
    lemma_group_below(m, p, u16::MAX + 1);
    assert forall|q: Pid| #[trigger] found.contains(q) <==> list.contains(q) by {}
    lemma_same_lists(found, list);
}

/// The process itself is in the group it moved to, and is otherwise unchanged.
pub proof fn law_moved_process(m: Map<Pid, ProcessView>, p: ProcessView, target: Pid)
    requires
        !m.contains_key(p.pid),
        target == p.pid || m.contains_key(target),
    ensures
        ({
            let end = with_process(regrouped(m, p, target), ProcessView { pgid: target, ..p });
            &&& end[p.pid].pgid == target
            &&& end[p.pid].in_group() <==> target != 0 && target != p.pid
            &&& end.dom() == with_process(m, p).dom()
        }),
{
    let end = with_process(regrouped(m, p, target), ProcessView { pgid: target, ..p });
    assert(end.dom() =~= with_process(m, p).dom());
}

} // verus!
