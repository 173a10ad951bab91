//! Sending signals to processes, and choosing the signal to handle next.
//!
//! Executing the action of a signal takes machine-dependent work, such as
//! preparing the stack of a user-space handler. The functions below decide
//! when that is to happen: they return the executions to be carried out, in
//! order, by the caller.

use vstd::prelude::*;

use crate::bitfield::{bit_of, Bitfield};
use crate::memory::Address;
use crate::pid_list;
use crate::pid_list::{strictly_sorted, with_pid, Pid};
use crate::process::regs::RUsage;
use crate::process::state::State;
use crate::process::{Process, ProcessView};
use crate::scheduler::Scheduler;
use crate::signal::{
    with_handler, Execution, HandlerTables, Signal, SignalAction, SignalHandler, SIGNALS_COUNT,
};

verus! {

/// The size of the redzone in userspace, in bytes.
pub const REDZONE_SIZE: u32 = 128;

impl ProcessView {
    /// The process is handling a signal.
    pub open spec fn handling(self) -> bool {
        self.handled_signal is Some
    }

    /// The signal, when sent to the process, is dropped.
    pub open spec fn blocks(self, sig: Signal) -> bool {
        sig.catchable() && self.sigmask[sig.id() as int]
    }

    /// The action of the signal, when sent to the process, is to be executed
    /// at once.
    pub open spec fn executes(self, sig: Signal, no_handler: bool) -> bool {
        !self.blocks(sig) && (!sig.catchable() || (self.handling() && no_handler))
    }

    /// The execution that results from sending the signal to the process.
    pub open spec fn execution(self, sig: Signal, no_handler: bool) -> Option<Execution> {
        if self.executes(sig, no_handler) {
            Some(Execution { pid: self.pid, sig, no_handler: self.handling() && no_handler })
        } else {
            None
        }
    }

    /// The process after the signal was sent to it, and before any execution
    /// that results from it.
    pub open spec fn killed(self, sig: Signal, no_handler: bool) -> ProcessView {
        if self.blocks(sig) {
            self
        } else {
            ProcessView {
                rusage: RUsage { ru_nsignals: (self.rusage.ru_nsignals + 1) as i64 },
                state: if self.state == State::Stopped && sig.default_action()
                    == SignalAction::Continue {
                    State::Running
                } else {
                    self.state
                },
                sigpending: if self.executes(sig, no_handler) {
                    self.sigpending
                } else {
                    self.sigpending.update(sig.id() as int, true)
                },
                ..self
            }
        }
    }

    /// The number of signals received by the process can still be counted
    /// after the signal is sent to it.
    pub open spec fn counts(self, sig: Signal) -> bool {
        self.blocks(sig) || self.rusage.ru_nsignals < i64::MAX
    }

    /// The signal with ID `i` is pending and may be handled.
    pub open spec fn deliverable(self, i: int) -> bool {
        &&& Signal::of_id(i) matches Some(sig)
        &&& self.sigpending[i]
        &&& !(sig.catchable() && self.sigmask[i])
    }

    /// The deliverable signal with the lowest ID that is not below `i`.
    pub open spec fn first_deliverable(self, i: int) -> Option<Signal>
        decreases SIGNALS_COUNT - i,
    {
        if i >= SIGNALS_COUNT {
            None
        } else if self.deliverable(i) {
            Signal::of_id(i)
        } else {
            self.first_deliverable(i + 1)
        }
    }

    /// The next signal to be handled by the process.
    pub open spec fn next_signal(self) -> Option<Signal> {
        if self.handling() {
            None
        } else {
            self.first_deliverable(0)
        }
    }

    /// The process with the signal no longer pending.
    pub open spec fn cleared(self, sig: Signal) -> ProcessView {
        ProcessView { sigpending: self.sigpending.update(sig.id() as int, false), ..self }
    }

    /// The process with its state saved to handle the signal.
    pub open spec fn saved(self, sig: Signal) -> ProcessView {
        ProcessView { saved_regs: self.regs, handled_signal: Some(sig), ..self }
    }

    /// The process with its state restored after handling a signal, if it was
    /// handling one.
    pub open spec fn restored(self) -> ProcessView {
        if self.handling() {
            ProcessView { handled_signal: None, regs: self.saved_regs, ..self }
        } else {
            self
        }
    }

    /// The execution of the next signal to be handled by the process.
    pub open spec fn next_execution(self) -> Option<Execution> {
        match self.next_signal() {
            Some(sig) => Some(Execution { pid: self.pid, sig, no_handler: false }),
            None => None,
        }
    }
}

/// The processes `m`, after the signal was sent to those listed in `targets`.
pub open spec fn signaled(
    m: Map<Pid, ProcessView>,
    targets: Seq<Pid>,
    sig: Signal,
    no_handler: bool,
) -> Map<Pid, ProcessView> {
    Map::new(
        |pid: Pid| m.contains_key(pid),
        |pid: Pid|
            if targets.contains(pid) {
                m[pid].killed(sig, no_handler)
            } else {
                m[pid]
            },
    )
}

/// The executions that result from sending the signal to the processes of `m`
/// that are listed in `targets`, in the order of the list.
pub open spec fn executions(
    m: Map<Pid, ProcessView>,
    targets: Seq<Pid>,
    sig: Signal,
    no_handler: bool,
) -> Seq<Execution>
    decreases targets.len(),
{
    if targets.len() == 0 {
        Seq::empty()
    } else {
        let before = executions(m, targets.drop_last(), sig, no_handler);
        let pid = targets.last();
        if m.contains_key(pid) {
            with_execution(before, m[pid].execution(sig, no_handler))
        } else {
            before
        }
    }
}

/// The list of executions, followed by one more if there is one.
pub open spec fn with_execution(list: Seq<Execution>, next: Option<Execution>) -> Seq<
    Execution,
> {
    match next {
        Some(execution) => list.push(execution),
        None => list,
    }
}

/// The process `pid` is another process of the group of `p`.
pub open spec fn in_group_of(m: Map<Pid, ProcessView>, p: ProcessView, pid: Pid) -> bool {
    m.contains_key(pid) && pid != p.pid && m[pid].pgid == p.pgid
}

/// The processes of `m` with an ID below `n`, other than `p`, in the group of
/// `p`, in increasing order.
pub open spec fn group_below(m: Map<Pid, ProcessView>, p: ProcessView, n: int) -> Seq<Pid>
    decreases n,
{
    if n <= 0 {
        Seq::empty()
    } else {
        let before = group_below(m, p, n - 1);
        if n - 1 <= u16::MAX && in_group_of(m, p, (n - 1) as Pid) {
            before.push((n - 1) as Pid)
        } else {
            before
        }
    }
}

/// The list of the other processes of a group contains these and no others, in
/// order and without repetition.
pub proof fn lemma_group_below(m: Map<Pid, ProcessView>, p: ProcessView, n: int)
    requires
        n <= u16::MAX + 1,
    ensures
        strictly_sorted(group_below(m, p, n)),
        forall|q: Pid| #[trigger]
            group_below(m, p, n).contains(q) <==> q < n && in_group_of(m, p, q),
    decreases n,
{
    if n > 0 {
        lemma_group_below(m, p, n - 1);
        let before = group_below(m, p, n - 1);
        let after = group_below(m, p, n);
        assert forall|i: int| 0 <= i < before.len() implies #[trigger] before[i] < n - 1 by {
            assert(before.contains(before[i]));
        }
        assert forall|q: Pid| #[trigger] after.contains(q) <==> q < n && in_group_of(m, p, q) by {
            if before.contains(q) {
                let i = choose|i: int| 0 <= i < before.len() && before[i] == q;
                assert(after[i] == q);
            }
            if after.contains(q) && q != n - 1 {
                let i = choose|i: int| 0 <= i < after.len() && after[i] == q;
                assert(before[i] == q);
            }
            if in_group_of(m, p, (n - 1) as Pid) {
                assert(after[before.len() as int] == n - 1);
            }
        }
    }
}

/// Where there is no process, the group has no more members.
proof fn lemma_group_gap(m: Map<Pid, ProcessView>, p: ProcessView, low: int, high: int)
    requires
        0 <= low <= high <= u16::MAX + 1,
        forall|q: Pid| low <= q < high ==> !m.contains_key(q),
    ensures
        group_below(m, p, high) == group_below(m, p, low),
    decreases high - low,
{
    if low < high {
        lemma_group_gap(m, p, low, high - 1);
        assert(!m.contains_key((high - 1) as Pid));
    }
}

/// Appends the execution to the list, if there is one.
pub fn push_execution(list: &mut Vec<Execution>, next: Option<Execution>)
    ensures
        final(list)@ == with_execution(old(list)@, next),
{
    if let Some(execution) = next {
        list.push(execution);
    }
}

/// Sends one more signal, to a process that did not receive it yet.
pub proof fn lemma_signaled_push(
    m: Map<Pid, ProcessView>,
    targets: Seq<Pid>,
    pid: Pid,
    sig: Signal,
    no_handler: bool,
)
    requires
        !targets.contains(pid),
    ensures
        m.contains_key(pid) ==> signaled(m, targets.push(pid), sig, no_handler) == signaled(
            m,
            targets,
            sig,
            no_handler,
        ).insert(pid, m[pid].killed(sig, no_handler)),
        !m.contains_key(pid) ==> signaled(m, targets.push(pid), sig, no_handler) == signaled(
            m,
            targets,
            sig,
            no_handler,
        ),
        m.contains_key(pid) ==> signaled(m, targets, sig, no_handler)[pid] == m[pid],
        executions(m, targets.push(pid), sig, no_handler) == (if m.contains_key(pid) {
            with_execution(
                executions(m, targets, sig, no_handler),
                m[pid].execution(sig, no_handler),
            )
        } else {
            executions(m, targets, sig, no_handler)
        }),
{
    let more = targets.push(pid);
    assert(more.drop_last() =~= targets);
    assert forall|p: Pid| more.contains(p) <==> p == pid || targets.contains(p) by {
        if targets.contains(p) {
            let i = choose|i: int| 0 <= i < targets.len() && targets[i] == p;
            assert(more[i] == p);
        }
        assert(more[targets.len() as int] == pid);
    }
    if m.contains_key(pid) {
        assert(signaled(m, more, sig, no_handler) =~= signaled(m, targets, sig, no_handler).insert(
            pid,
            m[pid].killed(sig, no_handler),
        ));
    } else {
        assert(signaled(m, more, sig, no_handler) =~= signaled(m, targets, sig, no_handler));
    }
}

impl Process {
    /// Returns the signal handler for the signal `sig`.
    pub fn get_signal_handler(&self, tables: &HandlerTables, sig: &Signal) -> (res: SignalHandler)
        requires
            tables.wf(),
            tables.in_use(self@.signal_handlers),
        ensures
            res == tables@[self@.signal_handlers as int].handlers[sig.id() as int],
    {
        tables.get(self.signal_handlers, sig)
    }

    /// Sets the signal handler `handler` for the signal `sig`. The processes
    /// that share the handlers of this process have it set, too.
    pub fn set_signal_handler(
        &self,
        tables: &mut HandlerTables,
        sig: &Signal,
        handler: SignalHandler,
    )
        requires
            old(tables).wf(),
            old(tables).in_use(self@.signal_handlers),
        ensures
            final(tables).wf(),
            final(tables)@ == with_handler(
                old(tables)@,
                self@.signal_handlers as int,
                *sig,
                handler,
            ),
    {
        tables.set(self.signal_handlers, sig, handler);
    }

    /// Tells whether the process is handling a signal.
    pub fn is_handling_signal(&self) -> (res: bool)
        ensures
            res == self@.handling(),
    {
        self.handled_signal.is_some()
    }

    /// Tells whether the signal can be sent to the process: the number of
    /// signals it received must not exceed what can be counted.
    pub fn can_receive(&self, sig: &Signal) -> (res: bool)
        requires
            self.wf(),
        ensures
            res == self@.counts(*sig),
    {
        (sig.can_catch() && self.is_signal_blocked(sig)) || self.rusage.ru_nsignals < i64::MAX
    }

    /// Kills the process with the given signal `sig`. If the process doesn't
    /// have a signal handler, the default action for the signal is executed.
    /// If `no_handler` is true and if the process is already handling a signal,
    /// the default action of the signal is executed regardless of the
    /// user-specified action.
    ///
    /// If the action is to be executed at once, the function returns that
    /// execution.
    pub fn kill(&mut self, sig: &Signal, no_handler: bool) -> (res: Option<Execution>)
        requires
            old(self).wf(),
            old(self)@.counts(*sig),
        ensures
            final(self).wf(),
            final(self)@ == old(self)@.killed(*sig, no_handler),
            res == old(self)@.execution(*sig, no_handler),
    {
        let id: usize = sig.get_id() as usize;
        if sig.can_catch() && self.sigmask.is_set(id) {
            return None;
        }
        self.rusage.ru_nsignals = self.rusage.ru_nsignals + 1;
        if self.state == State::Stopped && sig.get_default_action() == SignalAction::Continue {
            self.state = State::Running;
        }
        let no_handler = self.is_handling_signal() && no_handler;
        if !sig.can_catch() || no_handler {
            Some(Execution { pid: self.pid, sig: *sig, no_handler })
        } else {
            self.sigpending.set(id);
            None
        }
    }

    /// Returns the list of PIDs of processes in the group of this process, in
    /// increasing order, this process among them.
    pub fn get_group_processes(&self, sched: &Scheduler) -> (res: Vec<Pid>)
        requires
            sched.wf(),
        ensures
            res@ == with_pid(group_below(sched@, self@, u16::MAX + 1), self@.pid),
    {
        let mut res: Vec<Pid> = self.get_other_group_processes(sched);
        proof {
            lemma_group_below(sched@, self@, u16::MAX + 1);
        }
        pid_list::insert(&mut res, self.pid);
        res
    }

    /// Returns the list of PIDs of the other processes in the group of this
    /// process, in increasing order.
    fn get_other_group_processes(&self, sched: &Scheduler) -> (res: Vec<Pid>)
        requires
            sched.wf(),
        ensures
            res@ == group_below(sched@, self@, u16::MAX + 1),
    {
        let pids: Vec<Pid> = sched.pids();
        let mut res: Vec<Pid> = Vec::new();
        let ghost m = sched@;
        let mut i: usize = 0;
        let ghost mut n: int = 0;
        while i < pids.len()
            invariant
                i <= pids.len(),
                sched.wf(),
                m == sched@,
                strictly_sorted(pids@),
                forall|q: Pid| #[trigger] pids@.contains(q) <==> m.contains_key(q),
                0 <= n <= u16::MAX + 1,
                forall|j: int| 0 <= j < i ==> #[trigger] pids@[j] < n,
                forall|j: int| i <= j < pids@.len() ==> #[trigger] pids@[j] >= n,
                res@ == group_below(m, self@, n),
            decreases pids.len() - i,
        {
            let pid: Pid = pids[i];
            proof {
                assert(pids@.contains(pids@[i as int]));
                assert forall|q: Pid| n <= q < pid implies !m.contains_key(q) by {
                    if m.contains_key(q) {
                        assert(pids@.contains(q));
                        let j = choose|j: int| 0 <= j < pids@.len() && pids@[j] == q;
                        assert(pids@[j] < n || pids@[j] >= pid);
                    }
                }
                lemma_group_gap(m, self@, n, pid as int);
                n = pid + 1;
            }
            if pid != self.pid {
                if let Some(other) = sched.get_by_pid(pid) {
                    if other.get_pgid() == self.pgid {
                        res.push(pid);
                    }
                }
            }
            i += 1;
        }
        proof {
            assert forall|q: Pid| n <= q < u16::MAX + 1 implies !m.contains_key(q) by {
                if m.contains_key(q) {
                    assert(pids@.contains(q));
                    let j = choose|j: int| 0 <= j < pids@.len() && pids@[j] == q;
                    assert(pids@[j] < n);
                }
            }
            lemma_group_gap(m, self@, n, u16::MAX + 1);
        }
        res
    }

    /// Kills every process in the process group, this process last. Arguments
    /// are the same as `kill`.
    ///
    /// Returns the executions of the signal's action, in the order of the
    /// receiving processes.
    pub fn kill_group(&mut self, sched: &mut Scheduler, sig: Signal, no_handler: bool) -> (res: Vec<
        Execution,
    >)
        requires
            old(self).wf(),
            old(sched).wf(),
            old(self)@.counts(sig),
            forall|q: Pid| #[trigger]
                old(sched)@.contains_key(q) && q != old(self)@.pid && old(sched)@[q].pgid == old(
                    self,
                )@.pgid ==> old(sched)@[q].counts(sig),
        ensures
            final(self).wf(),
            final(sched).wf(),
            final(sched).current() == old(sched).current(),
            final(self)@ == old(self)@.killed(sig, no_handler),
            final(sched)@ == signaled(
                old(sched)@,
                group_below(old(sched)@, old(self)@, u16::MAX + 1),
                sig,
                no_handler,
            ),
            res@ == with_execution(
                executions(
                    old(sched)@,
                    group_below(old(sched)@, old(self)@, u16::MAX + 1),
                    sig,
                    no_handler,
                ),
                old(self)@.execution(sig, no_handler),
            ),
    {
        let mut res: Vec<Execution> = Vec::new();
        let members: Vec<Pid> = self.get_other_group_processes(sched);
        let ghost m = sched@;
        let mut i: usize = 0;
        proof {
            lemma_group_below(m, self@, u16::MAX + 1);
            assert(members@.take(0) =~= Seq::<Pid>::empty());
            assert(signaled(m, Seq::empty(), sig, no_handler) =~= m);
        }
        while i < members.len()
            invariant
                *self == *old(self),
                self.wf(),
                sched.wf(),
                m == old(sched)@,
                sched.current() == old(sched).current(),
                i <= members.len(),
                strictly_sorted(members@),
                forall|q: Pid| #[trigger] members@.contains(q) ==> in_group_of(m, self@, q),
                forall|q: Pid| #[trigger]
                    m.contains_key(q) && q != self@.pid && m[q].pgid == self@.pgid
                        ==> m[q].counts(sig),
                sched@ == signaled(m, members@.take(i as int), sig, no_handler),
                res@ == executions(m, members@.take(i as int), sig, no_handler),
            decreases members.len() - i,
        {
            let pid: Pid = members[i];
            let ghost done = members@.take(i as int);
            proof {
                assert(members@.take(i + 1) =~= done.push(pid));
                assert(members@.contains(members@[i as int]));
                assert(!done.contains(pid)) by {
                    if done.contains(pid) {
                        let k = choose|k: int| 0 <= k < done.len() && done[k] == pid;
                        assert(members@[k] == pid);
                    }
                }
                lemma_signaled_push(m, done, pid, sig, no_handler);
            }
            if let Some(mut p) = sched.take(pid) {
                let execution = p.kill(&sig, no_handler);
                sched.put(p);
                push_execution(&mut res, execution);
                assert(sched@ =~= signaled(m, done.push(pid), sig, no_handler));
            }
            i += 1;
        }
        assert(members@.take(members.len() as int) =~= members@);
        let execution = self.kill(&sig, no_handler);
        push_execution(&mut res, execution);
        res
    }

    /// Returns an immutable reference to the process's blocked signals mask.
    pub fn get_sigmask(&self) -> (res: &Bitfield)
        ensures
            res@ == self@.sigmask,
            self.wf() ==> res.wf(),
    {
        &self.sigmask
    }

    /// Returns a mutable reference to the process's blocked signals mask.
    pub fn get_sigmask_mut(&mut self) -> (res: &mut Bitfield)
        ensures
            res@ == old(self)@.sigmask,
            old(self).wf() ==> res.wf(),
            final(self)@ == (ProcessView { sigmask: final(res)@, ..old(self)@ }),
            old(self).wf() && final(res).wf() && final(res)@.len() == SIGNALS_COUNT
                ==> final(self).wf(),
    {
        &mut self.sigmask
    }

    /// Tells whether the given signal is blocked by the process.
    pub fn is_signal_blocked(&self, sig: &Signal) -> (res: bool)
        requires
            self.wf(),
        ensures
            res == self@.sigmask[sig.id() as int],
    {
        self.sigmask.is_set(sig.get_id() as usize)
    }

    /// Returns the process's pending signals mask, eight signals per byte.
    pub fn get_pending_signals(&self) -> (res: &[u8])
        requires
            self.wf(),
        ensures
            res@.len() == SIGNALS_COUNT / 8,
            forall|i: int|
                0 <= i < SIGNALS_COUNT ==> #[trigger] self@.sigpending[i] == bit_of(res@, i),
    {
        self.sigpending.as_slice()
    }

    /// Tells whether the process has a signal pending.
    pub fn has_signal_pending(&self) -> (res: bool)
        requires
            self.wf(),
        ensures
            res == exists|i: int| 0 <= i < SIGNALS_COUNT && #[trigger] self@.sigpending[i],
    {
        self.sigpending.find_set().is_some()
    }

    /// Returns the next signal to be executed.
    /// If no signal is pending or if the process is already handling a signal,
    /// the function returns None.
    pub fn get_next_signal(&self) -> (res: Option<Signal>)
        requires
            self.wf(),
        ensures
            res == self@.next_signal(),
    {
        if self.is_handling_signal() {
            return None;
        }
        let mut i: usize = 0;
        while i < SIGNALS_COUNT
            invariant
                self.wf(),
                !self@.handling(),
                i <= SIGNALS_COUNT,
                self@.next_signal() == self@.first_deliverable(i as int),
            decreases SIGNALS_COUNT - i,
        {
            if let Ok(sig) = Signal::from_id(i as u32) {
                if self.sigpending.is_set(i) && !(sig.can_catch() && self.sigmask.is_set(i)) {
                    return Some(sig);
                }
            }
            i += 1;
        }
        None
    }

    /// Makes the process handle the next signal.
    /// If no signal is pending or if the process is already handling a signal,
    /// the function does nothing.
    ///
    /// Returns the execution of the signal's action, if there is one.
    pub fn signal_next(&self) -> (res: Option<Execution>)
        requires
            self.wf(),
        ensures
            res == self@.next_execution(),
    {
        match self.get_next_signal() {
            Some(sig) => Some(Execution { pid: self.pid, sig, no_handler: false }),
            None => None,
        }
    }

    /// Returns the address to use as a stack when executing a signal handler.
    pub fn get_signal_stack(&self) -> (res: Address)
        requires
            self@.regs.esp >= REDZONE_SIZE,
        ensures
            res == self@.regs.esp - REDZONE_SIZE,
    {
        self.regs.esp - REDZONE_SIZE
    }

    /// Clear the signal from the list of pending signals.
    /// If the signal is already cleared, the function does nothing.
    pub fn signal_clear(&mut self, sig: Signal)
        requires
            old(self).wf(),
        ensures
            final(self).wf(),
            final(self)@ == old(self)@.cleared(sig),
    {
        self.sigpending.clear(sig.get_id() as usize);
    }

    /// Saves the process's state to handle a signal.
    /// `sig` is the signal. The process must not be handling a signal already.
    pub fn signal_save(&mut self, sig: Signal)
        requires
            !old(self)@.handling(),
        ensures
            old(self).wf() ==> final(self).wf(),
            final(self)@ == old(self)@.saved(sig),
    {
        self.saved_regs = self.regs;
        self.handled_signal = Some(sig);
    }

    /// Restores the process's state after handling a signal.
    pub fn signal_restore(&mut self)
        ensures
            old(self).wf() ==> final(self).wf(),
            final(self)@ == old(self)@.restored(),
    {
        if self.handled_signal.is_some() {
            self.handled_signal = None;
            self.regs = self.saved_regs;
        }
    }
}

} // verus!
