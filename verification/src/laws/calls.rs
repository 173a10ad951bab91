//! What the `kill` system call does, in terms of its registers.

use vstd::prelude::*;

use crate::errno::{Errno, EINVAL, EPERM, ESRCH};
use crate::file::Uid;
use crate::laws::signals::law_executions_follow_the_list;
use crate::pid_list::{lemma_same_lists, strictly_sorted, Pid, INIT_PID};
use crate::process::regs::Regs;
use crate::process::signals::executions;
use crate::process::state::State;
use crate::process::ProcessView;
use crate::scheduler::Scheduler;
use crate::signal::{Execution, Signal};
use crate::syscall::kill::{
    after_kill, after_send, can_call_kill, can_handle_kill, can_send,
    kill_executions, kill_handled, kill_result, killable, lemma_reached_below, reached,
    send_executions, send_result, sender_after, signal_argument, targets, try_result, KillStage,
    KillStep,
};

verus! {

/// A positive number stands for the signal that has it: every signal can be
/// sent. It is an error if no signal has it. Any other number stands for no
/// signal.
pub proof fn law_signal_argument(sig: Signal, n: i32)
    ensures
        signal_argument(sig.id() as i32) == Ok::<Option<Signal>, Errno>(Some(sig)),
        n > 0 && (forall|s: Signal| #[trigger] s.id() != n) ==> signal_argument(n) == Err::<
            Option<Signal>,
            Errno,
        >(EINVAL),
        n <= 0 ==> signal_argument(n) == Ok::<Option<Signal>, Errno>(None),
        signal_argument(n) == Ok::<Option<Signal>, Errno>(Some(sig)) <==> sig.id() == n,
        signal_argument(n) is Err <==> n > 0 && (forall|s: Signal| #[trigger] s.id() != n),
{
    sig.lemma_id();
    if Signal::of_id(n as int) is Some {
        let found = Signal::of_id(n as int)->0;
        assert(found.id() == n);
        found.lemma_id();
    }
}

/// The errors can be told apart, and from success.
pub proof fn law_errors_differ()
    ensures
        EPERM != ESRCH,
        EPERM != EINVAL,
        ESRCH != EINVAL,
        EPERM > 0,
        ESRCH > 0,
        EINVAL > 0,
{
}

/// An invalid signal number is an error, whoever it is for. Nothing changes.
pub proof fn law_invalid_signal(m: Map<Pid, ProcessView>, current: Pid, regs: Regs)
    requires
        regs.ecx as i32 > 0,
        forall|s: Signal| #[trigger] s.id() != regs.ecx as i32,
    ensures
        can_call_kill(m, None, regs),
        can_call_kill(m, Some(current), regs),
        kill_result(m, current, regs) == Err::<i32, Errno>(EINVAL),
        after_kill(m, current, regs) == m,
{
    law_signal_argument(Signal::SIGHUP, regs.ecx as i32);
}

/// The outcome depends on the registers `ebx` and `ecx` alone.
pub proof fn law_kill_reads_two_registers(
    m: Map<Pid, ProcessView>,
    current: Pid,
    regs: Regs,
    other: Regs,
)
    requires
        regs.ebx == other.ebx,
        regs.ecx == other.ecx,
    ensures
        kill_result(m, current, regs) == kill_result(m, current, other),
        kill_executions(m, current, regs) == kill_executions(m, current, other),
        after_kill(m, current, regs) == after_kill(m, current, other),
        can_call_kill(m, Some(current), regs) == can_call_kill(m, Some(current), other),
{
}

/// What trying to kill one process gives: there must be such a process, it must
/// not have terminated, and its real or effective user must be that of the
/// sender.
pub proof fn law_try_kill(m: Map<Pid, ProcessView>, pid: Pid, euid: Uid)
    ensures
        !m.contains_key(pid) ==> try_result(m, pid, euid) == Err::<i32, Errno>(ESRCH),
        m.contains_key(pid) && m[pid].state == State::Zombie ==> try_result(m, pid, euid) == Err::<
            i32,
            Errno,
        >(ESRCH),
        m.contains_key(pid) && m[pid].state != State::Zombie && m[pid].uid != euid && m[pid].euid
            != euid ==> try_result(m, pid, euid) == Err::<i32, Errno>(EPERM),
        m.contains_key(pid) && m[pid].state != State::Zombie && (m[pid].uid == euid || m[pid].euid
            == euid) ==> try_result(m, pid, euid) == Ok::<i32, Errno>(0),
{
}

/// A signal, if there is one, is sent to those on the list that exist. Without
/// one, nothing is sent and nothing executed.
pub proof fn law_send_to_listed(
    m: Map<Pid, ProcessView>,
    list: Seq<Pid>,
    sig: Signal,
    pid: Pid,
)
    ensures
        after_send(m, list, None) == m,
        send_executions(m, list, None) == Seq::<Execution>::empty(),
        send_executions(m, list, Some(sig)) == executions(m, list, sig, false),
        after_send(m, list, Some(sig)).dom() == m.dom(),
        m.contains_key(pid) && list.contains(pid) ==> after_send(m, list, Some(sig))[pid]
            == m[pid].killed(sig, false),
        m.contains_key(pid) && !list.contains(pid) ==> after_send(m, list, Some(sig))[pid]
            == m[pid],
{
    assert(after_send(m, list, Some(sig)).dom() =~= m.dom());
}

/// A signal for one process, by its ID. If that process exists, has not
/// terminated and belongs to the user of the sender, it is sent the signal,
/// whichever it is, and no other process changes. Otherwise the call fails: the
/// process is not found, or may not be sent signals. Nothing changes then.
pub proof fn law_kill_one(
    m: Map<Pid, ProcessView>,
    current: Pid,
    regs: Regs,
    target: Pid,
    sig: Signal,
)
    requires
        m.contains_key(current),
        m[current].pid == current,
        regs.ebx as i32 > 0,
        regs.ebx as i32 != current,
        (regs.ebx as i32) as Pid == target,
        target != current,
        regs.ecx == sig.id(),
    ensures
        ({
            let p = m[current];
            let q = m[target];
            let found = m.contains_key(target) && q.state != State::Zombie;
            let allowed = q.uid == p.euid || q.euid == p.euid;
            &&& !found ==> kill_result(m, current, regs) == Err::<i32, Errno>(ESRCH)
            &&& found && !allowed ==> kill_result(m, current, regs) == Err::<i32, Errno>(EPERM)
            &&& !(found && allowed) ==> after_kill(m, current, regs) == m
            &&& found && allowed ==> {
                &&& kill_result(m, current, regs) == Ok::<i32, Errno>(0)
                &&& after_kill(m, current, regs) == m.insert(target, q.killed(sig, false))
                &&& kill_executions(m, current, regs) == (match q.execution(sig, false) {
                    Some(e) => seq![e],
                    None => Seq::empty(),
                })
                &&& can_call_kill(m, Some(current), regs) <==> q.counts(sig)
            }
        }),
{
    law_signal_argument(sig, sig.id() as i32);
    sig.lemma_id();
    let others = m.remove(current);
    let p = m[current];
    let pid = regs.ebx as i32;
    if m.contains_key(target) && m[target].state != State::Zombie && (m[target].uid == p.euid
        || m[target].euid == p.euid) {
        assert(targets(others, p, pid) =~= seq![target]);
        assert(seq![target][0] == target);
        assert(seq![target].contains(target));
        assert(after_kill(m, current, regs) =~= m.insert(target, m[target].killed(sig, false)));
        law_executions_follow_the_list(
            others,
            Seq::empty(),
            Seq::empty(),
            sig,
            false,
            target,
        );
        assert(can_send(others, p, pid, Some(sig)) <==> m[target].counts(sig)) by {
            let list = targets(others, p, pid);
            assert(list[0] == target);
            if m[target].counts(sig) {
                assert forall|i: int| 0 <= i < list.len() implies others.contains_key(
                    #[trigger] list[i],
                ) && others[list[i]].counts(sig) by {
                    assert(list[i] == target);
                }
            }
        }
    }
}

/// Without a signal, the ID of a process tells whether it could be sent one.
pub proof fn law_probe_one(m: Map<Pid, ProcessView>, current: Pid, regs: Regs, target: Pid)
    requires
        m.contains_key(current),
        m[current].pid == current,
        regs.ebx as i32 > 0,
        (regs.ebx as i32) as Pid == target,
        regs.ecx as i32 <= 0,
    ensures
        ({
            let p = m[current];
            let q = m[target];
            let found = m.contains_key(target) && q.state != State::Zombie;
            let allowed = q.uid == p.euid || q.euid == p.euid;
            &&& regs.ebx as i32 == current ==> kill_result(m, current, regs) == Ok::<i32, Errno>(0)
            &&& target != current ==> {
                &&& !found ==> kill_result(m, current, regs) == Err::<i32, Errno>(ESRCH)
                &&& found && !allowed ==> kill_result(m, current, regs) == Err::<i32, Errno>(EPERM)
                &&& found && allowed ==> kill_result(m, current, regs) == Ok::<i32, Errno>(0)
            }
            &&& after_kill(m, current, regs) == m
            &&& kill_executions(m, current, regs).len() == 0
            &&& can_call_kill(m, Some(current), regs)
        }),
{
    assert(m.remove(current).insert(current, m[current]) =~= m);
}

/// A signal for the caller itself is always allowed.
pub proof fn law_kill_oneself(m: Map<Pid, ProcessView>, current: Pid, regs: Regs, sig: Signal)
    requires
        m.contains_key(current),
        m[current].pid == current,
        regs.ebx == current,
        regs.ecx == sig.id(),
    ensures
        kill_result(m, current, regs) == Ok::<i32, Errno>(0),
        after_kill(m, current, regs) == m.insert(current, m[current].killed(sig, false)),
        kill_executions(m, current, regs) == (match m[current].execution(sig, false) {
            Some(e) => seq![e],
            None => Seq::empty(),
        }),
        can_call_kill(m, Some(current), regs) <==> m[current].counts(sig),
{
    law_signal_argument(sig, sig.id() as i32);
    let others = m.remove(current);
    assert(regs.ebx as i32 == current);
    assert(after_send(others, Seq::empty(), Some(sig)) =~= others);
    assert(after_kill(m, current, regs) =~= m.insert(current, m[current].killed(sig, false)));
    assert(kill_executions(m, current, regs) =~= (match m[current].execution(sig, false) {
        Some(e) => seq![e],
        None => Seq::empty(),
    }));
}

/// The list of processes that a signal for a group is for: the list of the
/// sender if the argument is zero or the negated ID of the sender, and that of
/// the process with the negated argument as its ID otherwise.
pub open spec fn group_argument(
    m: Map<Pid, ProcessView>,
    current: Pid,
    pid: i32,
    list: Seq<Pid>,
) -> bool {
    ||| (pid == 0 || (pid < 0 && (-pid) as Pid == current)) && current != 0 && list
        == m[current].process_group
    ||| pid < -1 && (-pid) as Pid != current && m.contains_key((-pid) as Pid) && list == m[(-pid)
        as Pid].process_group
}

/// Someone on the list could be killed by the process `p`, which may be `p`
/// itself.
pub open spec fn could_kill_some(
    m: Map<Pid, ProcessView>,
    p: ProcessView,
    list: Seq<Pid>,
) -> bool {
    exists|i: int|
        0 <= i < list.len() && m.contains_key(#[trigger] list[i]) && m[list[i]].state
            != State::Zombie && (m[list[i]].uid == p.euid || m[list[i]].euid == p.euid)
}

/// A signal for a group reaches everyone on its list, and nobody else. The call
/// succeeds exactly if someone on the list could be killed.
pub proof fn law_kill_group_argument(
    m: Map<Pid, ProcessView>,
    current: Pid,
    regs: Regs,
    sig: Signal,
    list: Seq<Pid>,
    pid: Pid,
)
    requires
        m.contains_key(current),
        m[current].pid == current,
        regs.ecx == sig.id(),
        group_argument(m, current, regs.ebx as i32, list),
        can_call_kill(m, Some(current), regs),
    ensures
        could_kill_some(m, m[current], list) ==> kill_result(m, current, regs) == Ok::<i32, Errno>(
            0,
        ),
        !could_kill_some(m, m[current], list) ==> kill_result(m, current, regs) == Err::<
            i32,
            Errno,
        >(ESRCH),
        after_kill(m, current, regs).dom() == m.dom(),
        m.contains_key(pid) && list.contains(pid) ==> after_kill(m, current, regs)[pid]
            == m[pid].killed(sig, false),
        m.contains_key(pid) && !list.contains(pid) ==> after_kill(m, current, regs)[pid] == m[pid],
        kill_executions(m, current, regs) == executions(m.remove(current), list, sig, false),
{
    law_signal_argument(sig, sig.id() as i32);
    let others = m.remove(current);
    let p = m[current];
    let arg = regs.ebx as i32;
    assert(targets(others, p, arg) == list);
    assert(others.insert(p.pid, p) =~= m);
    assert(after_kill(m, current, regs).dom() =~= m.dom());
    assert(send_result(others, p, arg) is Ok <==> could_kill_some(m, p, list)) by {
        if could_kill_some(m, p, list) {
            let i = choose|i: int|
                0 <= i < list.len() && m.contains_key(#[trigger] list[i]) && m[list[i]].state
                    != State::Zombie && (m[list[i]].uid == p.euid || m[list[i]].euid == p.euid);
            assert(killable(m, list[i], p.euid));
        }
    }
    assert(!list.contains(current)) by {
        if list.contains(current) {
            let i = choose|i: int| 0 <= i < list.len() && list[i] == current;
            assert(others.contains_key(list[i]));
        }
    }
    if !could_kill_some(m, p, list) && list.contains(pid) {
        let i = choose|i: int| 0 <= i < list.len() && list[i] == pid;
        assert(killable(others, list[i], p.euid));
        assert(m.contains_key(list[i]));
    }
}

/// Without a signal, a group argument tells whether someone on the list could be
/// killed. The group of a process that does not exist cannot be found.
pub proof fn law_probe_group(
    m: Map<Pid, ProcessView>,
    current: Pid,
    regs: Regs,
    list: Seq<Pid>,
)
    requires
        m.contains_key(current),
        m[current].pid == current,
        current != 0,
    ensures
        regs.ecx as i32 <= 0 && group_argument(m, current, regs.ebx as i32, list) ==> (if
        could_kill_some(m, m[current], list) {
            kill_result(m, current, regs) == Ok::<i32, Errno>(0)
        } else {
            kill_result(m, current, regs) == Err::<i32, Errno>(ESRCH)
        }),
        ({
            let arg = regs.ebx as i32;
            signal_argument(regs.ecx as i32) is Ok && arg < -1 && (-arg) as Pid != current
                && !m.contains_key((-arg) as Pid) ==> kill_result(m, current, regs) == Err::<
                i32,
                Errno,
            >(ESRCH)
        }),
        regs.ecx as i32 <= 0 ==> after_kill(m, current, regs) == m,
        regs.ecx as i32 <= 0 && regs.ebx as i32 != i32::MIN ==> can_call_kill(
            m,
            Some(current),
            regs,
        ),
{
    let others = m.remove(current);
    let p = m[current];
    let arg = regs.ebx as i32;
    assert(others.insert(p.pid, p) =~= m);
    if group_argument(m, current, arg, list) {
        assert(targets(others, p, arg) == list);
        if could_kill_some(m, p, list) {
            let i = choose|i: int|
                0 <= i < list.len() && m.contains_key(#[trigger] list[i]) && m[list[i]].state
                    != State::Zombie && (m[list[i]].uid == p.euid || m[list[i]].euid == p.euid);
            assert(killable(m, list[i], p.euid));
        }
    }
}

/// A signal for all processes reaches each one of the sender's user, but neither
/// the sender nor the init process. The call fails if there is none.
pub proof fn law_kill_all(
    m: Map<Pid, ProcessView>,
    current: Pid,
    regs: Regs,
    sig: Signal,
    pid: Pid,
)
    requires
        m.contains_key(current),
        m[current].pid == current,
        current != 0,
        current != INIT_PID,
        regs.ebx as i32 == -1,
        regs.ecx == sig.id(),
        m.contains_key(pid),
    ensures
        ({
            let p = m[current];
            let q = m[pid];
            let reached = pid != current && pid != 1 && (q.uid == p.euid || q.euid == p.euid);
            &&& after_kill(m, current, regs).dom() == m.dom()
            &&& reached ==> {
                &&& kill_result(m, current, regs) == Ok::<i32, Errno>(0)
                &&& after_kill(m, current, regs)[pid] == q.killed(sig, false)
            }
            &&& !reached ==> after_kill(m, current, regs)[pid] == q
            &&& kill_result(m, current, regs) == Ok::<i32, Errno>(0) || kill_result(
                m,
                current,
                regs,
            ) == Err::<i32, Errno>(ESRCH)
            &&& kill_result(m, current, regs) is Err ==> after_kill(m, current, regs) == m
            &&& kill_result(m, current, regs) is Ok ==> exists|x: Pid| #[trigger]
                m.contains_key(x) && x != current && x != 1 && (m[x].uid == p.euid || m[x].euid
                    == p.euid)
        }),
{
    law_signal_argument(sig, sig.id() as i32);
    let others = m.remove(current);
    let p = m[current];
    let list = targets(others, p, regs.ebx as i32);
    lemma_reached_below(others, p, u16::MAX + 1);
    assert(after_kill(m, current, regs).dom() =~= m.dom());
    if pid != current && pid != INIT_PID && (m[pid].uid == p.euid || m[pid].euid == p.euid) {
        assert(list.contains(pid));
        let i = choose|i: int| 0 <= i < list.len() && list[i] == pid;
        assert(list.len() > 0);
    }
    if list.len() > 0 {
        assert(list.contains(list[0]));
        assert(m.contains_key(list[0]));
    }
    if pid == current {
        assert(after_kill(m, current, regs)[pid] == m[pid]);
    }
}

/// The executions of a signal for all processes come in the order of the IDs of
/// the processes that it reaches.
pub proof fn law_kill_all_executions(
    m: Map<Pid, ProcessView>,
    current: Pid,
    regs: Regs,
    sig: Signal,
    list: Seq<Pid>,
)
    requires
        m.contains_key(current),
        m[current].pid == current,
        current != 0,
        current != 1,
        regs.ebx as i32 == -1,
        regs.ecx == sig.id(),
        strictly_sorted(list),
        forall|q: Pid| #[trigger]
            list.contains(q) <==> m.contains_key(q) && q != current && q != 1 && (m[q].uid
                == m[current].euid || m[q].euid == m[current].euid),
    ensures
        kill_executions(m, current, regs) == executions(m.remove(current), list, sig, false),
{
    law_signal_argument(sig, sig.id() as i32);
    let others = m.remove(current);
    let p = m[current];
    let found = targets(others, p, regs.ebx as i32);
    lemma_reached_below(others, p, u16::MAX + 1);
    assert forall|q: Pid| #[trigger] found.contains(q) <==> list.contains(q) by {}
    lemma_same_lists(found, list);
}

/// Without a signal, the argument for all processes tells whether there is one
/// that could be sent one.
pub proof fn law_probe_all(m: Map<Pid, ProcessView>, current: Pid, regs: Regs)
    requires
        m.contains_key(current),
        m[current].pid == current,
        current != 0,
        current != 1,
        regs.ebx as i32 == -1,
        regs.ecx as i32 <= 0,
    ensures
        ({
            let some = exists|x: Pid| #[trigger]
                m.contains_key(x) && x != current && x != 1 && (m[x].uid == m[current].euid
                    || m[x].euid == m[current].euid);
            &&& some ==> kill_result(m, current, regs) == Ok::<i32, Errno>(0)
            &&& !some ==> kill_result(m, current, regs) == Err::<i32, Errno>(ESRCH)
            &&& after_kill(m, current, regs) == m
            &&& can_call_kill(m, Some(current), regs)
        }),
{
    let others = m.remove(current);
    let p = m[current];
    let list = targets(others, p, regs.ebx as i32);
    lemma_reached_below(others, p, u16::MAX + 1);
    assert(others.insert(current, p) =~= m);
    if list.len() > 0 {
        assert(list.contains(list[0]));
        assert(m.contains_key(list[0]));
    }
    assert forall|x: Pid| #[trigger]
        m.contains_key(x) && x != current && x != 1 && (m[x].uid == p.euid || m[x].euid
            == p.euid) implies list.len() > 0 by {
        assert(list.contains(x));
    }
}

/// A `kill` system call can be made whenever every process can count one more
/// signal and, if a group is sent one, everyone on its list is another process
/// that exists, has not terminated and belongs to the sender's user.
pub proof fn law_kill_can_be_called(
    m: Map<Pid, ProcessView>,
    current: Pid,
    regs: Regs,
    list: Seq<Pid>,
)
    requires
        m.contains_key(current),
        m[current].pid == current,
        current != 0,
        regs.ebx as i32 != i32::MIN,
        forall|x: Pid| #[trigger] m.contains_key(x) ==> m[x].rusage.ru_nsignals < i64::MAX,
        group_argument(m, current, regs.ebx as i32, list) ==> forall|i: int|
            0 <= i < list.len() ==> m.contains_key(#[trigger] list[i]) && list[i] != current
                && m[list[i]].state != State::Zombie && (m[list[i]].uid == m[current].euid
                || m[list[i]].euid == m[current].euid),
        ({
            let arg = regs.ebx as i32;
            ||| arg > 0
            ||| arg == -1 && current != 1
            ||| arg < -1 && (-arg) as Pid != current && !m.contains_key((-arg) as Pid)
            ||| group_argument(m, current, arg, list)
        }),
    ensures
        can_call_kill(m, Some(current), regs),
{
    let others = m.remove(current);
    let p = m[current];
    let arg = regs.ebx as i32;
    if let Ok(Some(sig)) = signal_argument(regs.ecx as i32) {
        assert(m.contains_key(current));
        if arg == current {
        } else if arg > 0 {
            let one = targets(others, p, arg);
            assert forall|i: int| 0 <= i < one.len() implies killable(
                others,
                #[trigger] one[i],
                p.euid,
            ) && others[one[i]].counts(sig) by {
                assert(one[i] == arg as Pid);
                assert(m.contains_key(one[i]));
            }
        } else if group_argument(m, current, arg, list) {
            assert(targets(others, p, arg) == list);
            assert forall|i: int| 0 <= i < list.len() implies killable(
                others,
                #[trigger] list[i],
                p.euid,
            ) && others[list[i]].counts(sig) by {
                assert(m.contains_key(list[i]));
            }
        } else {
            assert forall|q: Pid| reached(others, p, q) implies (
            #[trigger] others[q]).counts(sig) by {
                assert(m.contains_key(q));
            }
        }
    }
}

/// What the steps of a `kill` system call do. The signal is sent in the first
/// one; an error ends the call there. The next signal of the caller, if it has
/// one, is executed then. In the end the caller waits if it is running or
/// stopped, stops for good if it has terminated, and returns zero at once if it
/// sleeps. It returns zero after waiting. Only the first step changes anything.
pub proof fn law_kill_steps(
    stage: KillStage,
    regs: Regs,
    before: Scheduler,
    after: Scheduler,
    step: KillStep,
    current: Pid,
)
    requires
        kill_handled(stage, regs, before, after, step),
        before.current() == Some(current),
    ensures
        ({
            let p = before@[current];
            let ends = {
                &&& p.state == State::Running || p.state == State::Stopped ==> step
                    == KillStep::Wait(KillStage::Waited)
                &&& p.state == State::Zombie ==> step == KillStep::EnterLoop
                &&& p.state == State::Sleeping ==> step == KillStep::Return(Ok(0))
            };
            &&& stage != KillStage::Begin ==> after@ == before@
            &&& stage == KillStage::Begin ==> {
                &&& after@ == after_kill(before@, current, regs)
                &&& kill_result(before@, current, regs) matches Err(e) ==> step
                    == KillStep::Return(Err(e))
                &&& kill_result(before@, current, regs) is Ok ==> {
                    &&& step matches KillStep::Execute(list, next)
                    &&& list@ == kill_executions(before@, current, regs)
                    &&& next == KillStage::Sent
                }
            }
            &&& stage == KillStage::Sent && p.next_execution() is Some ==> {
                &&& step matches KillStep::Execute(list, next)
                &&& list@ == seq![p.next_execution()->0]
                &&& next == KillStage::SignalExecuted
            }
            &&& stage == KillStage::Sent && p.next_execution() is None ==> ends
            &&& stage == KillStage::SignalExecuted ==> ends
            &&& stage == KillStage::Waited ==> step == KillStep::Return(Ok(0))
        }),
{
}

/// The steps of a `kill` system call can be taken as long as there is a current
/// process, once the call can be made.
pub proof fn law_kill_steps_can_be_taken(stage: KillStage, regs: Regs, sched: Scheduler)
    ensures
        can_call_kill(sched@, sched.current(), regs) && sched.current() is Some
            && sched@.contains_key(sched.current()->0) ==> can_handle_kill(stage, regs, sched),
        stage == KillStage::Begin && can_call_kill(sched@, sched.current(), regs)
            ==> can_handle_kill(stage, regs, sched),
{
}

/// The sender changes only if it sends a signal to itself.
pub proof fn law_sender(p: ProcessView, pid: i32, sig: Signal)
    ensures
        sender_after(p, pid, None) == p,
        pid == p.pid ==> sender_after(p, pid, Some(sig)) == p.killed(sig, false),
        pid != p.pid ==> sender_after(p, pid, Some(sig)) == p,
{
}

} // verus!
