//! This module implements the `kill` system call, which allows to send a
//! signal to a process.

use vstd::prelude::*;

use crate::errno::{Errno, EINVAL, EPERM, ESRCH};
use crate::file::Uid;
use crate::pid_list::{strictly_sorted, Pid, INIT_PID};
use crate::process::regs::Regs;
use crate::process::signals::{
    executions, lemma_signaled_push, push_execution, signaled, with_execution,
};
use crate::process::state::State;
use crate::process::{Process, ProcessView};
use crate::scheduler::Scheduler;
use crate::signal::{Execution, Signal, SIGNALS_COUNT};

verus! {

/// What came of sending a signal.
#[derive(Debug)]
pub struct Sent {
    /// The value to return to user space.
    pub code: i32,
    /// The executions of the signal's action, to be carried out in order.
    pub executions: Vec<Execution>,
}

/// A process with the effective user ID `euid` may send signals to `p`.
pub open spec fn permitted(p: ProcessView, euid: Uid) -> bool {
    euid == p.uid || euid == p.euid
}

/// A process with the effective user ID `euid` could kill the process `pid`.
pub open spec fn killable(m: Map<Pid, ProcessView>, pid: Pid, euid: Uid) -> bool {
    m.contains_key(pid) && m[pid].state != State::Zombie && permitted(m[pid], euid)
}

/// A process with the effective user ID `euid` could kill some process listed
/// in `group`.
pub open spec fn some_killable(m: Map<Pid, ProcessView>, group: Seq<Pid>, euid: Uid) -> bool {
    exists|i: int| 0 <= i < group.len() && killable(m, #[trigger] group[i], euid)
}

/// The signal can be sent to each process listed in `group`.
pub open spec fn all_receive(
    m: Map<Pid, ProcessView>,
    group: Seq<Pid>,
    sig: Option<Signal>,
    euid: Uid,
) -> bool {
    sig matches Some(sig) ==> forall|i: int|
        0 <= i < group.len() ==> killable(m, #[trigger] group[i], euid) && m[group[i]].counts(sig)
}

/// The result of trying to kill the process `pid`.
pub open spec fn try_result(m: Map<Pid, ProcessView>, pid: Pid, euid: Uid) -> Result<i32, Errno> {
    if !m.contains_key(pid) || m[pid].state == State::Zombie {
        Err(ESRCH)
    } else if !permitted(m[pid], euid) {
        Err(EPERM)
    } else {
        Ok(0)
    }
}

/// The processes `m` after the signal, if there is one, was sent to those
/// listed in `targets`.
pub open spec fn after_send(
    m: Map<Pid, ProcessView>,
    targets: Seq<Pid>,
    sig: Option<Signal>,
) -> Map<Pid, ProcessView> {
    match sig {
        Some(sig) => signaled(m, targets, sig, false),
        None => m,
    }
}

/// The executions that result from sending the signal, if there is one.
pub open spec fn send_executions(
    m: Map<Pid, ProcessView>,
    targets: Seq<Pid>,
    sig: Option<Signal>,
) -> Seq<Execution> {
    match sig {
        Some(sig) => executions(m, targets, sig, false),
        None => Seq::empty(),
    }
}

/// Tries to kill the process with PID `pid` with the signal `sig`.
/// `euid` is the effective user ID of the sender process.
/// If `sig` is None, the function doesn't send a signal, but still checks if
/// there is a process that could be killed.
pub fn try_kill(sched: &mut Scheduler, pid: i32, sig: Option<Signal>, euid: Uid) -> (res: Result<
    Sent,
    Errno,
>)
    requires
        old(sched).wf(),
        sig matches Some(sig) ==> (killable(old(sched)@, pid as Pid, euid) ==> old(
            sched,
        )@[pid as Pid].counts(sig)),
    ensures
        final(sched).wf(),
        final(sched).current() == old(sched).current(),
        match try_result(old(sched)@, pid as Pid, euid) {
            Ok(code) => {
                &&& res matches Ok(sent)
                &&& sent.code == code
                &&& sent.executions@ == send_executions(old(sched)@, seq![pid as Pid], sig)
                &&& final(sched)@ == after_send(old(sched)@, seq![pid as Pid], sig)
            },
            Err(e) => {
                &&& res matches Err(err)
                &&& err == e
                &&& final(sched)@ == old(sched)@
            },
        },
{
    let pid: Pid = pid as Pid;
    let mut list: Vec<Execution> = Vec::new();
    if let Some(mut proc) = sched.take(pid) {
        let res = if *proc.get_state() != State::Zombie {
            if euid == proc.get_uid() || euid == proc.get_euid() {
                if let Some(sig) = sig {
                    let execution = proc.kill(&sig, false);
                    push_execution(&mut list, execution);
                    proof {
                        let m = old(sched)@;
                        assert(signaled(m, Seq::empty(), sig, false) =~= m);
                        lemma_signaled_push(m, Seq::empty(), pid, sig, false);
                        assert(Seq::empty().push(pid) =~= seq![pid]);
                    }
                }
                Ok(Sent { code: 0, executions: list })
            } else {
                Err(EPERM)
            }
        } else {
            Err(ESRCH)
        };
        sched.put(proc);
        assert(res is Err ==> sched@ =~= old(sched)@);
        assert(res is Ok ==> sched@ =~= after_send(old(sched)@, seq![pid], sig));
        res
    } else {
        assert(sched@ =~= old(sched)@);
        Err(ESRCH)
    }
}

/// The receivers that the `pid` argument of `kill` stands for.
pub enum Receivers {
    /// The sender itself.
    Sender,
    /// The process with the given ID.
    One(Pid),
    /// The processes that joined the group of the sender.
    OwnGroup,
    /// Every process that the sender may send signals to, except the init
    /// process and the sender.
    All,
    /// The processes that joined the group of the process with the given ID.
    Group(Pid),
}

/// The receivers that the argument `pid` stands for, when `p` is the sender.
pub open spec fn receivers(pid: i32, p: ProcessView) -> Receivers {
    if pid == p.pid as i32 {
        Receivers::Sender
    } else if pid > 0 {
        Receivers::One(pid as Pid)
    } else if pid == 0 || (-pid) as Pid == p.pid {
        Receivers::OwnGroup
    } else if pid == -1 {
        Receivers::All
    } else {
        Receivers::Group((-pid) as Pid)
    }
}

/// The process `pid` is reached by a signal that `p` sends to all processes.
pub open spec fn reached(m: Map<Pid, ProcessView>, p: ProcessView, pid: Pid) -> bool {
    m.contains_key(pid) && pid != INIT_PID && pid != p.pid && permitted(m[pid], p.euid)
}

/// The processes with an ID below `n` that are reached by a signal that `p`
/// sends to all processes, in increasing order.
pub open spec fn reached_below(m: Map<Pid, ProcessView>, p: ProcessView, n: int) -> Seq<Pid>
    decreases n,
{
    if n <= 0 {
        Seq::empty()
    } else {
        let before = reached_below(m, p, n - 1);
        if n - 1 <= u16::MAX && reached(m, p, (n - 1) as Pid) {
            before.push((n - 1) as Pid)
        } else {
            before
        }
    }
}

/// The processes that a signal sent by `p` with the argument `pid` is for,
/// other than `p`.
pub open spec fn targets(m: Map<Pid, ProcessView>, p: ProcessView, pid: i32) -> Seq<Pid> {
    match receivers(pid, p) {
        Receivers::Sender => Seq::empty(),
        Receivers::One(pid) => if killable(m, pid, p.euid) {
            seq![pid]
        } else {
            Seq::empty()
        },
        Receivers::OwnGroup => p.process_group,
        Receivers::All => reached_below(m, p, u16::MAX + 1),
        Receivers::Group(owner) => if m.contains_key(owner) {
            m[owner].process_group
        } else {
            Seq::empty()
        },
    }
}

/// The signal can be sent by `p` with the argument `pid`.
pub open spec fn can_send(
    m: Map<Pid, ProcessView>,
    p: ProcessView,
    pid: i32,
    sig: Option<Signal>,
) -> bool {
    match receivers(pid, p) {
        Receivers::Sender => sig matches Some(sig) ==> p.counts(sig),
        Receivers::One(_) => all_receive(m, targets(m, p, pid), sig, p.euid),
        Receivers::OwnGroup | Receivers::Group(_) => all_receive(
            m,
            targets(m, p, pid),
            sig,
            p.euid,
        ),
        Receivers::All => sig matches Some(sig) ==> forall|q: Pid|
            reached(m, p, q) ==> (#[trigger] m[q]).counts(sig),
    }
}

/// The result of sending a signal from `p` with the argument `pid`.
pub open spec fn send_result(m: Map<Pid, ProcessView>, p: ProcessView, pid: i32) -> Result<
    i32,
    Errno,
> {
    let found = match receivers(pid, p) {
        Receivers::Sender => true,
        Receivers::One(_) => true,
        Receivers::OwnGroup | Receivers::Group(_) => some_killable(
            m.insert(p.pid, p),
            targets(m, p, pid),
            p.euid,
        ),
        Receivers::All => targets(m, p, pid).len() > 0,
    };
    match receivers(pid, p) {
        Receivers::One(pid) => try_result(m, pid, p.euid),
        _ => if found {
            Ok(0)
        } else {
            Err(ESRCH)
        },
    }
}

/// The sender `p` after it sent the signal with the argument `pid`.
pub open spec fn sender_after(p: ProcessView, pid: i32, sig: Option<Signal>) -> ProcessView {
    match sig {
        Some(sig) => if receivers(pid, p) is Sender {
            p.killed(sig, false)
        } else {
            p
        },
        None => p,
    }
}

/// The executions that result from `p` sending the signal with the argument
/// `pid`.
pub open spec fn all_executions(
    m: Map<Pid, ProcessView>,
    p: ProcessView,
    pid: i32,
    sig: Option<Signal>,
) -> Seq<Execution> {
    if receivers(pid, p) is Sender && sig is Some {
        with_execution(Seq::empty(), p.execution(sig->0, false))
    } else {
        send_executions(m, targets(m, p, pid), sig)
    }
}

/// Sends the signal `sig` to the processes listed in `group`. `proc` is the
/// sender.
/// Returns the executions, and tells whether there is a process that could be
/// killed, which may be the sender.
fn kill_members(
    sched: &mut Scheduler,
    group: &Vec<Pid>,
    sig: Option<Signal>,
    proc: &Process,
) -> (res: (bool, Vec<Execution>))
    requires
        old(sched).wf(),
        !old(sched)@.contains_key(proc@.pid),
        strictly_sorted(group@),
        all_receive(old(sched)@, group@, sig, proc@.euid),
    ensures
        final(sched).wf(),
        final(sched).current() == old(sched).current(),
        res.0 == some_killable(old(sched)@.insert(proc@.pid, proc@), group@, proc@.euid),
        res.1@ == send_executions(old(sched)@, group@, sig),
        final(sched)@ == after_send(old(sched)@, group@, sig),
{
    let mut found = false;
    let mut list: Vec<Execution> = Vec::new();
    let euid: Uid = proc.get_euid();
    let ghost m = sched@;
    let ghost all = m.insert(proc@.pid, proc@);
    let mut i: usize = 0;
    proof {
        assert(group@.take(0) =~= Seq::<Pid>::empty());
        assert(after_send(m, Seq::empty(), sig) =~= m);
    }
    while i < group.len()
        invariant
            i <= group.len(),
            m == old(sched)@,
            sched.wf(),
            sched.current() == old(sched).current(),
            all == m.insert(proc@.pid, proc@),
            !m.contains_key(proc@.pid),
            euid == proc@.euid,
            strictly_sorted(group@),
            all_receive(m, group@, sig, euid),
            found == some_killable(all, group@.take(i as int), euid),
            list@ == send_executions(m, group@.take(i as int), sig),
            sched@ == after_send(m, group@.take(i as int), sig),
        decreases group.len() - i,
    {
        let pid: Pid = group[i];
        let ghost done = group@.take(i as int);
        let ghost now = sched@;
        proof {
            assert(group@.take(i + 1) =~= done.push(pid));
            assert(!done.contains(pid)) by {
                if done.contains(pid) {
                    let k = choose|k: int| 0 <= k < done.len() && done[k] == pid;
                    assert(group@[k] == pid);
                }
            }
            assert(group@[i as int] == pid);
            if let Some(s) = sig {
                lemma_signaled_push(m, done, pid, s, false);
                assert(signaled(now, Seq::empty(), s, false) =~= now);
                lemma_signaled_push(now, Seq::empty(), pid, s, false);
                assert(Seq::empty().push(pid) =~= seq![pid]);
            }
            assert(killable(now, pid, euid) == killable(m, pid, euid));
            assert(some_killable(all, done.push(pid), euid) == (some_killable(all, done, euid)
                || killable(all, pid, euid))) by {
                if some_killable(all, done, euid) {
                    let k = choose|k: int| 0 <= k < done.len() && killable(all, done[k], euid);
                    assert(done.push(pid)[k] == done[k]);
                }
                assert(done.push(pid)[i as int] == pid);
                if some_killable(all, done.push(pid), euid) {
                    let k = choose|k: int|
                        0 <= k < done.len() + 1 && killable(all, done.push(pid)[k], euid);
                    if k < i {
                        assert(done[k] == done.push(pid)[k]);
                    }
                }
            }
        }
        if pid == proc.get_pid() {
            if *proc.get_state() != State::Zombie {
                found = true;
            }
        } else {
            match try_kill(sched, pid as i32, sig, euid) {
                Ok(sent) => {
                    found = true;
                    let mut sent_list = sent.executions;
                    list.append(&mut sent_list);
                    assert(sched@ =~= after_send(m, done.push(pid), sig));
                    assert(list@ =~= send_executions(m, done.push(pid), sig));
                },
                Err(_) => {},
            }
        }
        i += 1;
    }
    assert(group@.take(group.len() as int) =~= group@);
    (found, list)
}

/// Sends the signal `sig` to every process that `proc` may send signals to,
/// except the init process and `proc`.
/// Returns the executions, and tells whether there is a process that could be
/// killed.
fn kill_all(sched: &mut Scheduler, sig: Option<Signal>, proc: &Process) -> (res: (
    bool,
    Vec<Execution>,
))
    requires
        old(sched).wf(),
        sig matches Some(sig) ==> forall|q: Pid|
            reached(old(sched)@, proc@, q) ==> (#[trigger] old(sched)@[q]).counts(sig),
    ensures
        final(sched).wf(),
        final(sched).current() == old(sched).current(),
        res.0 == (reached_below(old(sched)@, proc@, u16::MAX + 1).len() > 0),
        res.1@ == send_executions(
            old(sched)@,
            reached_below(old(sched)@, proc@, u16::MAX + 1),
            sig,
        ),
        final(sched)@ == after_send(
            old(sched)@,
            reached_below(old(sched)@, proc@, u16::MAX + 1),
            sig,
        ),
{
    let mut found = false;
    let mut list: Vec<Execution> = Vec::new();
    let pids: Vec<Pid> = sched.pids();
    let ghost m = sched@;
    let ghost p = proc@;
    let mut i: usize = 0;
    let ghost mut n: int = 0;
    proof {
        assert(after_send(m, Seq::empty(), sig) =~= m);
    }
    while i < pids.len()
        invariant
            i <= pids.len(),
            m == old(sched)@,
            p == proc@,
            sched.wf(),
            sched.current() == old(sched).current(),
            strictly_sorted(pids@),
            forall|q: Pid| #[trigger] pids@.contains(q) <==> m.contains_key(q),
            sig matches Some(sig) ==> forall|q: Pid|
                reached(m, p, q) ==> (#[trigger] m[q]).counts(sig),
            0 <= n <= u16::MAX + 1,
            forall|j: int| 0 <= j < i ==> #[trigger] pids@[j] < n,
            forall|j: int| i <= j < pids@.len() ==> #[trigger] pids@[j] >= n,
            found == (reached_below(m, p, n).len() > 0),
            list@ == send_executions(m, reached_below(m, p, n), sig),
            sched@ == after_send(m, reached_below(m, p, n), sig),
        decreases pids.len() - i,
    {
        let pid: Pid = pids[i];
        let ghost done = reached_below(m, p, n);
        proof {
            assert(pids@.contains(pids@[i as int]));
            assert forall|q: Pid| n <= q < pid implies !m.contains_key(q) by {
                if m.contains_key(q) {
                    assert(pids@.contains(q));
                    let j = choose|j: int| 0 <= j < pids@.len() && pids@[j] == q;
                    assert(pids@[j] < n || pids@[j] >= pid);
                }
            }
            lemma_reached_gap(m, p, n, pid as int);
            lemma_reached_below(m, p, n);
            assert(!done.contains(pid));
            if let Some(s) = sig {
                lemma_signaled_push(m, done, pid, s, false);
            }
            n = pid + 1;
        }
        if pid != INIT_PID && pid != proc.get_pid() {
            if let Some(mut other) = sched.take(pid) {
                if proc.get_euid() == other.get_uid() || proc.get_euid() == other.get_euid() {
                    if let Some(sig) = sig {
                        let execution = other.kill(&sig, false);
                        push_execution(&mut list, execution);
                    }
                    found = true;
                }
                sched.put(other);
            }
        }
        assert(sched@ =~= after_send(m, reached_below(m, p, n), sig));
        i += 1;
    }
    proof {
        assert forall|q: Pid| n <= q < u16::MAX + 1 implies !m.contains_key(q) by {
            if m.contains_key(q) {
                assert(pids@.contains(q));
                let j = choose|j: int| 0 <= j < pids@.len() && pids@[j] == q;
                assert(pids@[j] < n);
            }
        }
        lemma_reached_gap(m, p, n, u16::MAX + 1);
    }
    (found, list)
}

/// Where there is no process, nothing more is reached.
proof fn lemma_reached_gap(m: Map<Pid, ProcessView>, p: ProcessView, low: int, high: int)
    requires
        0 <= low <= high <= u16::MAX + 1,
        forall|q: Pid| low <= q < high ==> !m.contains_key(q),
    ensures
        reached_below(m, p, high) == reached_below(m, p, low),
    decreases high - low,
{
    if low < high {
        lemma_reached_gap(m, p, low, high - 1);
        assert(!m.contains_key((high - 1) as Pid));
    }
}

/// The list of reached processes contains these and no others, in order and
/// without repetition.
pub proof fn lemma_reached_below(m: Map<Pid, ProcessView>, p: ProcessView, n: int)
    requires
        n <= u16::MAX + 1,
    ensures
        strictly_sorted(reached_below(m, p, n)),
        forall|q: Pid| #[trigger]
            reached_below(m, p, n).contains(q) <==> q < n && reached(m, p, q),
    decreases n,
{
    if n > 0 {
        lemma_reached_below(m, p, n - 1);
        let before = reached_below(m, p, n - 1);
        let after = reached_below(m, p, n);
        assert forall|i: int| 0 <= i < before.len() implies #[trigger] before[i] < n - 1 by {
            assert(before.contains(before[i]));
        }
        assert forall|q: Pid| #[trigger] after.contains(q) <==> q < n && reached(m, p, q) by {
            if before.contains(q) {
                let i = choose|i: int| 0 <= i < before.len() && before[i] == q;
                assert(after[i] == q);
            }
            if after.contains(q) && q != n - 1 {
                let i = choose|i: int| 0 <= i < after.len() && after[i] == q;
                assert(before[i] == q);
            }
            if reached(m, p, (n - 1) as Pid) {
                assert(after[before.len() as int] == n - 1);
            }
        }
    }
}

/// Tells whether the signal can be sent to each process listed in `group`.
fn members_receive(sched: &Scheduler, group: &Vec<Pid>, sig: &Signal, euid: Uid) -> (res: bool)
    requires
        sched.wf(),
    ensures
        res == all_receive(sched@, group@, Some(*sig), euid),
{
    let mut i: usize = 0;
    while i < group.len()
        invariant
            i <= group.len(),
            sched.wf(),
            forall|j: int|
                0 <= j < i ==> killable(sched@, #[trigger] group@[j], euid)
                    && sched@[group@[j]].counts(*sig),
        decreases group.len() - i,
    {
        let ok = match sched.get_by_pid(group[i]) {
            Some(p) => {
                *p.get_state() != State::Zombie && (euid == p.get_uid() || euid == p.get_euid())
                    && p.can_receive(sig)
            },
            None => false,
        };
        if !ok {
            assert(!(killable(sched@, group@[i as int], euid) && sched@[group@[i as int]].counts(
                *sig,
            )));
            return false;
        }
        i += 1;
    }
    true
}

/// Tells whether the signal can be sent to each process that `proc` reaches
/// when it sends signals to all.
fn all_processes_receive(sched: &Scheduler, sig: &Signal, proc: &Process) -> (res: bool)
    requires
        sched.wf(),
    ensures
        res == forall|q: Pid| reached(sched@, proc@, q) ==> (#[trigger] sched@[q]).counts(*sig),
{
    let pids: Vec<Pid> = sched.pids();
    let mut i: usize = 0;
    while i < pids.len()
        invariant
            i <= pids.len(),
            sched.wf(),
            forall|j: int|
                0 <= j < i ==> (reached(sched@, proc@, #[trigger] pids@[j])
                    ==> sched@[pids@[j]].counts(*sig)),
        decreases pids.len() - i,
    {
        let pid: Pid = pids[i];
        if pid != INIT_PID && pid != proc.get_pid() {
            if let Some(p) = sched.get_by_pid(pid) {
                if (proc.get_euid() == p.get_uid() || proc.get_euid() == p.get_euid())
                    && !p.can_receive(sig) {
                    assert(!sched@[pid].counts(*sig));
                    return false;
                }
            }
        }
        i += 1;
    }
    assert forall|q: Pid| reached(sched@, proc@, q) implies (#[trigger] sched@[q]).counts(
        *sig,
    ) by {
        assert(pids@.contains(q));
    }
    true
}

/// Tells whether `proc` can send the signal `sig` to the processes according to
/// the given value `pid`. Each member of a group that is sent a signal must be
/// a process that could be killed.
pub fn is_sendable(pid: i32, sig: Option<Signal>, proc: &Process, sched: &Scheduler) -> (res: bool)
    requires
        proc.wf(),
        sched.wf(),
        pid != i32::MIN,
    ensures
        res == can_send(sched@, proc@, pid, sig),
{
    let sig = match sig {
        Some(sig) => sig,
        None => {
            return true;
        },
    };
    if pid == proc.get_pid() as i32 {
        return proc.can_receive(&sig);
    }
    if pid > 0 {
        let ghost list = targets(sched@, proc@, pid);
        return match sched.get_by_pid(pid as Pid) {
            Some(p) => {
                let killable = *p.get_state() != State::Zombie && (proc.get_euid() == p.get_uid()
                    || proc.get_euid() == p.get_euid());
                assert(killable ==> list[0] == pid as Pid);
                !killable || p.can_receive(&sig)
            },
            None => true,
        };
    }
    if pid == 0 || (-pid) as Pid == proc.get_pid() {
        members_receive(sched, proc.get_joined_processes(), &sig, proc.get_euid())
    } else if pid == -1 {
        all_processes_receive(sched, &sig, proc)
    } else {
        match sched.get_by_pid((-pid) as Pid) {
            Some(owner) => members_receive(
                sched,
                owner.get_joined_processes(),
                &sig,
                proc.get_euid(),
            ),
            None => true,
        }
    }
}

/// Sends the signal `sig` to the processes according to the given value `pid`.
/// `proc` is the current process, taken out of the scheduler.
/// If `sig` is None, the function doesn't send a signal, but still checks if
/// there is a process that could be killed.
pub fn send_signal(
    pid: i32,
    sig: Option<Signal>,
    proc: &mut Process,
    sched: &mut Scheduler,
) -> (res: Result<Sent, Errno>)
    requires
        old(proc).wf(),
        old(sched).wf(),
        !old(sched)@.contains_key(old(proc)@.pid),
        pid != i32::MIN,
        can_send(old(sched)@, old(proc)@, pid, sig),
    ensures
        final(proc).wf(),
        final(sched).wf(),
        final(sched).current() == old(sched).current(),
        match send_result(old(sched)@, old(proc)@, pid) {
            Ok(code) => {
                &&& res matches Ok(sent)
                &&& sent.code == code
                &&& sent.executions@ == all_executions(old(sched)@, old(proc)@, pid, sig)
                &&& final(proc)@ == sender_after(old(proc)@, pid, sig)
                &&& final(sched)@ == after_send(
                    old(sched)@,
                    targets(old(sched)@, old(proc)@, pid),
                    sig,
                )
            },
            Err(e) => {
                &&& res matches Err(err)
                &&& err == e
                &&& final(proc)@ == old(proc)@
                &&& final(sched)@ == old(sched)@
            },
        },
{
    let ghost m = sched@;
    let ghost p = proc@;
    if pid == proc.get_pid() as i32 {
        let mut list: Vec<Execution> = Vec::new();
        if let Some(sig) = sig {
            let execution = proc.kill(&sig, false);
            push_execution(&mut list, execution);
        }
        assert(after_send(m, Seq::empty(), sig) =~= m);
        return Ok(Sent { code: 0, executions: list });
    }
    if pid > 0 {
        proof {
            if sig is Some && killable(m, pid as Pid, p.euid) {
                assert(targets(m, p, pid)[0] == pid as Pid);
            }
        }
        return try_kill(sched, pid, sig, proc.get_euid());
    }
    let (found, list) = if pid == 0 || (-pid) as Pid == proc.get_pid() {
        kill_members(sched, proc.get_joined_processes(), sig, proc)
    } else if pid == -1 {
        kill_all(sched, sig, proc)
    } else {
        let group: Vec<Pid> = match sched.get_by_pid((-pid) as Pid) {
            Some(owner) => owner.get_joined_processes().clone(),
            None => {
                return Err(ESRCH);
            },
        };
        assert(group@ =~= targets(m, p, pid));
        kill_members(sched, &group, sig, proc)
    };
    if found {
        Ok(Sent { code: 0, executions: list })
    } else {
        Err(ESRCH)
    }
}

/// The signal that the second argument of `kill` stands for. If it is not
/// positive, no signal is to be sent.
pub open spec fn signal_argument(sig: i32) -> Result<Option<Signal>, Errno> {
    if sig > 0 {
        match Signal::of_id(sig as int) {
            Some(sig) => Ok(Some(sig)),
            None => Err(EINVAL),
        }
    } else {
        Ok(None)
    }
}

/// The `kill` syscall can be made by the process `current`, which must be among
/// the processes `m`, unless the signal is invalid.
pub open spec fn can_call_kill(m: Map<Pid, ProcessView>, current: Option<Pid>, regs: Regs) -> bool {
    signal_argument(regs.ecx as i32) matches Ok(sig) ==> {
        &&& current matches Some(pid)
        &&& m.contains_key(pid)
        &&& regs.ebx as i32 != i32::MIN
        &&& can_send(m.remove(pid), m[pid], regs.ebx as i32, sig)
    }
}

/// The result of the `kill` syscall made by the process `current`.
pub open spec fn kill_result(m: Map<Pid, ProcessView>, current: Pid, regs: Regs) -> Result<
    i32,
    Errno,
> {
    match signal_argument(regs.ecx as i32) {
        Ok(_) => send_result(m.remove(current), m[current], regs.ebx as i32),
        Err(e) => Err(e),
    }
}

/// The executions that result from the `kill` syscall, if it succeeds.
pub open spec fn kill_executions(m: Map<Pid, ProcessView>, current: Pid, regs: Regs) -> Seq<
    Execution,
> {
    let sig = signal_argument(regs.ecx as i32)->Ok_0;
    all_executions(m.remove(current), m[current], regs.ebx as i32, sig)
}

/// The processes after the `kill` syscall made by the process `current`.
pub open spec fn after_kill(m: Map<Pid, ProcessView>, current: Pid, regs: Regs) -> Map<
    Pid,
    ProcessView,
> {
    let others = m.remove(current);
    let p = m[current];
    let pid = regs.ebx as i32;
    let sig = signal_argument(regs.ecx as i32)->Ok_0;
    if kill_result(m, current, regs) is Ok {
        after_send(others, targets(others, p, pid), sig).insert(current, sender_after(p, pid, sig))
    } else {
        m
    }
}

/// The implementation of the `kill` syscall. There must be a current process,
/// unless the signal is invalid.
///
/// `handle_kill` tells how the system call goes on once the executions it
/// returns have been carried out.
pub fn kill(regs: &Regs, sched: &mut Scheduler) -> (res: Result<Sent, Errno>)
    requires
        old(sched).wf(),
        can_call_kill(old(sched)@, old(sched).current(), *regs),
    ensures
        final(sched).wf(),
        final(sched).current() == old(sched).current(),
        final(sched)@ == after_kill(old(sched)@, old(sched).current()->0, *regs),
        match kill_result(old(sched)@, old(sched).current()->0, *regs) {
            Ok(code) => {
                &&& res matches Ok(sent)
                &&& sent.code == code
                &&& sent.executions@ == kill_executions(
                    old(sched)@,
                    old(sched).current()->0,
                    *regs,
                )
            },
            Err(e) => {
                &&& res matches Err(err)
                &&& err == e
            },
        },
{
    let pid: i32 = regs.ebx as i32;
    let sig: i32 = regs.ecx as i32;
    let sig = if sig > 0 {
        match Signal::from_id(sig as u32) {
            Ok(sig) => Some(sig),
            Err(e) => {
                return Err(e);
            },
        }
    } else {
        None
    };
    let current: Pid = sched.get_current_pid().unwrap();
    let mut proc = sched.take(current).unwrap();
    let res = send_signal(pid, sig, &mut proc, sched);
    sched.put(proc);
    assert(res is Err ==> sched@ =~= old(sched)@);
    res
}

/// Returns the execution of a signal pending on the current process, if there
/// is one. POSIX requires that at least one pending signal is executed before
/// `kill` returns.
pub fn kill_pending(sched: &Scheduler) -> (res: Option<Execution>)
    requires
        sched.wf(),
        sched.has_current(),
    ensures
        res == sched@[sched.current()->0].next_execution(),
{
    let proc = Process::get_current(sched).unwrap();
    if proc.has_signal_pending() {
        // Set the process to execute the signal action
        proc.signal_next()
    } else {
        proof {
            lemma_nothing_deliverable(proc@, 0);
        }
        None
    }
}

/// If no signal is pending, none is to be handled.
proof fn lemma_nothing_deliverable(p: ProcessView, i: int)
    requires
        0 <= i,
        forall|j: int| 0 <= j < SIGNALS_COUNT ==> !#[trigger] p.sigpending[j],
    ensures
        p.first_deliverable(i) is None,
    decreases SIGNALS_COUNT - i,
{
    if i < SIGNALS_COUNT {
        lemma_nothing_deliverable(p, i + 1);
    }
}

/// How the `kill` syscall ends for the process that called it.
#[derive(Clone, Copy, Debug, PartialEq, Eq, Structural)]
pub enum KillEnd {
    /// The process waits for the scheduler to jump to a signal handler, or to
    /// wake it up.
    Wait,
    /// The process has been killed: its execution stops for good.
    EnterLoop,
    /// The call returns at once.
    Return,
}

/// Tells how the `kill` syscall ends for the current process, once signals have
/// been executed.
pub fn kill_end(sched: &Scheduler) -> (res: KillEnd)
    requires
        sched.wf(),
        sched.has_current(),
    ensures
        res == (match sched@[sched.current()->0].state {
            State::Running | State::Stopped => KillEnd::Wait,
            State::Zombie => KillEnd::EnterLoop,
            State::Sleeping => KillEnd::Return,
        }),
{
    let proc = Process::get_current(sched).unwrap();
    match proc.get_state() {
        // The process is executing a signal handler. Make the scheduler jump to it
        State::Running => KillEnd::Wait,
        // The process has been stopped. Waiting until wakeup
        State::Stopped => KillEnd::Wait,
        // The process has been killed. Stopping execution and waiting for the next tick
        State::Zombie => KillEnd::EnterLoop,
        State::Sleeping => KillEnd::Return,
    }
}

/// How far a `kill` syscall has come.
#[derive(Clone, Copy, Debug, PartialEq, Eq, Structural)]
pub enum KillStage {
    /// The call begins.
    Begin,
    /// The signal has been sent, and executed by those that execute it at once.
    Sent,
    /// A pending signal of the calling process has been executed.
    SignalExecuted,
    /// The calling process has waited.
    Waited,
}

/// The next step of a `kill` syscall.
#[derive(Debug)]
pub enum KillStep {
    /// The actions of signals are to be executed in order, before going on with
    /// the given stage.
    Execute(Vec<Execution>, KillStage),
    /// The process is to wait, before going on with the given stage.
    Wait(KillStage),
    /// The execution of the process stops for good.
    EnterLoop,
    /// The call returns.
    Return(Result<i32, Errno>),
}

/// The step that a `kill` syscall of the process `p` ends with, once signals
/// have been executed.
pub open spec fn end_step(p: ProcessView) -> KillStep {
    match p.state {
        State::Running | State::Stopped => KillStep::Wait(KillStage::Waited),
        State::Zombie => KillStep::EnterLoop,
        State::Sleeping => KillStep::Return(Ok(0)),
    }
}

/// The step of a `kill` syscall can be taken.
pub open spec fn can_handle_kill(stage: KillStage, regs: Regs, sched: Scheduler) -> bool {
    match stage {
        KillStage::Begin => can_call_kill(sched@, sched.current(), regs),
        KillStage::Sent | KillStage::SignalExecuted => sched.has_current(),
        KillStage::Waited => true,
    }
}

/// What the step of a `kill` syscall does: `step` is the next one. The signal is
/// sent first. If that fails, the call ends with the error. Otherwise, a pending
/// signal of the calling process is executed, and only then the process waits.
pub open spec fn kill_handled(
    stage: KillStage,
    regs: Regs,
    before: Scheduler,
    after: Scheduler,
    step: KillStep,
) -> bool {
    let current = before.current()->0;
    match stage {
        KillStage::Begin => {
            &&& after@ == after_kill(before@, current, regs)
            &&& match kill_result(before@, current, regs) {
                Ok(_) => {
                    &&& step matches KillStep::Execute(list, next)
                    &&& list@ == kill_executions(before@, current, regs)
                    &&& next == KillStage::Sent
                },
                Err(e) => step == KillStep::Return(Err(e)),
            }
        },
        KillStage::Sent => {
            &&& after@ == before@
            &&& match before@[current].next_execution() {
                Some(execution) => {
                    &&& step matches KillStep::Execute(list, next)
                    &&& list@ == seq![execution]
                    &&& next == KillStage::SignalExecuted
                },
                None => step == end_step(before@[current]),
            }
        },
        KillStage::SignalExecuted => {
            &&& after@ == before@
            &&& step == end_step(before@[current])
        },
        KillStage::Waited => {
            &&& after@ == before@
            &&& step == KillStep::Return(Ok(0))
        },
    }
}

/// Returns the step that the `kill` syscall of the current process ends with.
fn end_kill(sched: &Scheduler) -> (res: KillStep)
    requires
        sched.wf(),
        sched.has_current(),
    ensures
        res == end_step(sched@[sched.current()->0]),
{
    match kill_end(sched) {
        KillEnd::Wait => KillStep::Wait(KillStage::Waited),
        KillEnd::EnterLoop => KillStep::EnterLoop,
        KillEnd::Return => KillStep::Return(Ok(0)),
    }
}

/// Takes the next step of a `kill` syscall made by the current process with the
/// registers `regs`.
pub fn handle_kill(stage: KillStage, regs: &Regs, sched: &mut Scheduler) -> (res: KillStep)
    requires
        old(sched).wf(),
        can_handle_kill(stage, *regs, *old(sched)),
    ensures
        final(sched).wf(),
        final(sched).current() == old(sched).current(),
        kill_handled(stage, *regs, *old(sched), *final(sched), res),
{
    match stage {
        KillStage::Begin => match kill(regs, sched) {
            Ok(sent) => KillStep::Execute(sent.executions, KillStage::Sent),
            Err(e) => KillStep::Return(Err(e)),
        },
        KillStage::Sent => match kill_pending(sched) {
            Some(execution) => {
                let list: Vec<Execution> = vec![execution];
                assert(list@ =~= seq![execution]);
                KillStep::Execute(list, KillStage::SignalExecuted)
            },
            None => end_kill(sched),
        },
        KillStage::SignalExecuted => end_kill(sched),
        KillStage::Waited => KillStep::Return(Ok(0)),
    }
}

} // verus!
