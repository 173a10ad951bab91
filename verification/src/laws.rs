//! What holds of processes whatever happens to them.

use vstd::prelude::*;

use crate::errno::Errno;
use crate::pid_list::{
    lemma_rank, lemma_with_all, lemma_with_pid, rank, sorted, strictly_sorted, with_all, with_pid,
    Pid, INIT_PID,
};
use crate::process::family::{
    after_exit, after_state, can_set_state, living, parent_released, regrouped,
};
use crate::process::fork::{fork_failure, handlers_forked, ForkOptions, ForkResources};
use crate::process::holders::{fds_held, mem_space_held, unheld, References};
use crate::process::regs::Regs;
use crate::process::signals::{group_below, in_group_of, lemma_group_below, signaled};
use crate::process::state::{State, VForkState};
use crate::process::ProcessView;
use crate::signal::{
    added, with_handler, with_users, HandlerTableView, Signal, SignalAction, SignalHandler,
    SIGNALS_COUNT,
};
use crate::syscall::kill::{
    after_kill, after_send, all_executions, can_call_kill, can_send, kill_executions, kill_result,
    lemma_reached_below, permitted, receivers, send_result, sender_after, signal_argument, targets,
    Receivers,
};

pub mod calls;
pub mod creation;
pub mod ends;
pub mod groups;
pub mod machine;
pub mod signals;

verus! {

// Signals

/// A signal that cannot be caught is executed at once, whatever the process
/// blocks or handles.
pub proof fn law_uncatchable_signals_are_executed(p: ProcessView, sig: Signal, no_handler: bool)
    requires
        !sig.catchable(),
    ensures
        p.execution(sig, no_handler) is Some,
        p.execution(sig, no_handler)->0.pid == p.pid,
        p.execution(sig, no_handler)->0.sig == sig,
        p.killed(sig, no_handler).sigpending == p.sigpending,
{
}

/// A blocked signal has no effect at all.
pub proof fn law_blocked_signals_are_dropped(p: ProcessView, sig: Signal, no_handler: bool)
    requires
        sig.catchable(),
        p.sigmask[sig.id() as int],
    ensures
        p.killed(sig, no_handler) == p,
        p.execution(sig, no_handler) is None,
{
}

/// Sending a signal changes nothing of a process but its pending signals, the
/// count of its signals and, if it is stopped and the signal is to continue it,
/// its state.
pub proof fn law_kill_frame(p: ProcessView, sig: Signal, no_handler: bool)
    ensures
        p.killed(sig, no_handler) == (ProcessView {
            state: p.killed(sig, no_handler).state,
            rusage: p.killed(sig, no_handler).rusage,
            sigpending: p.killed(sig, no_handler).sigpending,
            ..p
        }),
        p.killed(sig, no_handler).state != p.state ==> {
            &&& p.state == State::Stopped
            &&& p.killed(sig, no_handler).state == State::Running
            &&& sig.default_action() == SignalAction::Continue
        },
{
}

/// It does not matter whether a process receives a signal before or after one
/// of its children got something to be waited for.
pub proof fn law_kill_commutes_with_notification(p: ProcessView, sig: Signal, no_handler: bool)
    requires
        p.wf(),
        p.rusage.ru_nsignals + 1 < i64::MAX,
    ensures
        p.killed(sig, no_handler).notified() == p.notified().killed(sig, no_handler),
        p.notified().execution(sig, no_handler) == p.execution(sig, no_handler),
{
    sig.lemma_id();
    let a = p.killed(sig, no_handler).notified();
    let b = p.notified().killed(sig, no_handler);
    assert(a.sigpending =~= b.sigpending);
    assert(a =~= b);
}

/// The next signal to be handled is the one with the lowest ID among those that
/// are pending and not blocked. There is none if there is no such signal.
pub proof fn law_next_signal(p: ProcessView)
    requires
        !p.handling(),
    ensures
        match p.next_signal() {
            Some(sig) => {
                &&& p.deliverable(sig.id() as int)
                &&& forall|i: int| 0 <= i < sig.id() ==> !#[trigger] p.deliverable(i)
            },
            None => forall|i: int| 0 <= i < SIGNALS_COUNT ==> !#[trigger] p.deliverable(i),
        },
{
    lemma_first_deliverable(p, 0);
}

proof fn lemma_first_deliverable(p: ProcessView, start: int)
    requires
        0 <= start,
    ensures
        match p.first_deliverable(start) {
            Some(sig) => {
                &&& start <= sig.id()
                &&& p.deliverable(sig.id() as int)
                &&& forall|i: int| start <= i < sig.id() ==> !#[trigger] p.deliverable(i)
            },
            None => forall|i: int| start <= i < SIGNALS_COUNT ==> !#[trigger] p.deliverable(i),
        },
    decreases SIGNALS_COUNT - start,
{
    if start < SIGNALS_COUNT {
        if p.deliverable(start) {
            let sig = Signal::of_id(start)->0;
            assert(sig.id() == start);
        } else {
            lemma_first_deliverable(p, start + 1);
        }
    }
}

/// A process that handles a signal takes no other one.
pub proof fn law_one_signal_at_a_time(p: ProcessView, sig: Signal)
    ensures
        p.saved(sig).next_signal() is None,
        p.saved(sig).next_execution() is None,
{
}

/// A signal that was sent and not blocked is handled, unless another one with a
/// lower ID comes first.
pub proof fn law_sent_signals_are_handled(p: ProcessView, sig: Signal, no_handler: bool)
    requires
        p.wf(),
        !p.handling(),
        sig.catchable(),
        !p.sigmask[sig.id() as int],
    ensures
        p.killed(sig, no_handler).next_signal() is Some,
        p.killed(sig, no_handler).next_signal()->0.id() <= sig.id(),
{
    let q = p.killed(sig, no_handler);
    sig.lemma_id();
    assert(q.deliverable(sig.id() as int));
    law_next_signal(q);
    if q.next_signal() is Some {
        let next = q.next_signal()->0;
        if sig.id() < next.id() {
            assert(!q.deliverable(sig.id() as int));
        }
    }
}

/// A signal that was cleared is not handled.
pub proof fn law_cleared_signals_are_not_handled(p: ProcessView, sig: Signal)
    requires
        p.wf(),
    ensures
        p.cleared(sig).next_signal() != Some(sig),
        p.cleared(sig).cleared(sig) == p.cleared(sig),
{
    sig.lemma_id();
    let q = p.cleared(sig);
    if !q.handling() {
        law_next_signal(q);
    }
    assert(q.cleared(sig).sigpending =~= q.sigpending);
}

/// Clearing a signal undoes making it pending.
pub proof fn law_clear_undoes_kill(p: ProcessView, sig: Signal, no_handler: bool)
    requires
        p.wf(),
        !p.sigpending[sig.id() as int],
    ensures
        p.killed(sig, no_handler).cleared(sig).sigpending == p.sigpending,
{
    sig.lemma_id();
    assert(p.killed(sig, no_handler).cleared(sig).sigpending =~= p.sigpending);
}

/// After a signal was handled, the process goes on where it was interrupted.
pub proof fn law_restore_undoes_save(p: ProcessView, sig: Signal)
    requires
        !p.handling(),
    ensures
        p.saved(sig).restored() == (ProcessView { saved_regs: p.regs, ..p }),
{
}

/// What the handler did to the registers is forgotten when the state of the
/// process is restored.
pub proof fn law_restore_forgets_handler_registers(
    p: ProcessView,
    sig: Signal,
    regs: Regs,
)
    ensures
        (ProcessView { regs, ..p.saved(sig) }).restored().regs == p.regs,
        !(ProcessView { regs, ..p.saved(sig) }).restored().handling(),
{
}

/// The processes that share a table of handlers see each handler that one of
/// them sets. The others do not.
pub proof fn law_handlers_are_shared(
    tables: Seq<HandlerTableView>,
    table: int,
    sig: Signal,
    handler: SignalHandler,
    other: int,
    other_sig: Signal,
)
    requires
        0 <= table < tables.len(),
        0 <= other < tables.len(),
        forall|i: int|
            0 <= i < tables.len() ==> (#[trigger] tables[i]).handlers.len() == SIGNALS_COUNT,
    ensures
        with_handler(tables, table, sig, handler)[other].handlers[other_sig.id() as int] == (
        if other == table && other_sig == sig {
            handler
        } else {
            tables[other].handlers[other_sig.id() as int]
        }),
{
    sig.lemma_id();
    other_sig.lemma_id();
}

// The end of processes

/// A terminated process stays so.
pub proof fn law_zombies_stay_zombies(
    p: ProcessView,
    new_state: State,
    sig: Signal,
    no_handler: bool,
    status: u32,
    signaled: bool,
)
    requires
        p.state == State::Zombie,
    ensures
        p.with_state(new_state) == p,
        p.killed(sig, no_handler).state == State::Zombie,
        p.woken() == p,
        p.notified().state == State::Zombie,
        p.exited(status, signaled).state == State::Zombie,
        !p.can_run(),
{
}

/// A process that exited is terminated, can be waited for, has given up its
/// file descriptors and never runs again. It tells its exit status, or the
/// signal that terminated it.
pub proof fn law_exit(p: ProcessView, status: u32, signaled: bool)
    requires
        p.state != State::Zombie,
    ensures
        ({
            let q = p.exited(status, signaled);
            &&& q.state == State::Zombie
            &&& q.waitable
            &&& q.file_descriptors is None
            &&& !q.can_run()
            &&& q.vfork_state != VForkState::Executing
            &&& signaled ==> q.exit_status == 0 && q.termsig == (status & 0xff) as u8
            &&& !signaled ==> q.exit_status == (status & 0xff) as u8 && q.termsig == 0
        }),
{
}

/// When a process exits, its parent is sent `SIGCHLD`, unless it blocks it, and
/// is woken up.
pub proof fn law_exit_notifies_parent(m: Map<Pid, ProcessView>, p: ProcessView, parent: Pid)
    requires
        p.parent == Some(parent),
        m.contains_key(parent),
        m[parent].wf(),
    ensures
        after_exit(m, p).contains_key(parent),
        after_exit(m, p)[parent].state != State::Sleeping,
        m[parent].state == State::Sleeping ==> after_exit(m, p)[parent].state == State::Running,
        !m[parent].sigmask[Signal::SIGCHLD.id() as int] ==> after_exit(
            m,
            p,
        )[parent].sigpending[Signal::SIGCHLD.id() as int],
{
}

/// A parent that waits for a vfork child does not run. It can run again once
/// the child exits.
pub proof fn law_vfork_parent_waits_for_child(
    m: Map<Pid, ProcessView>,
    p: ProcessView,
    options: ForkOptions,
    resources: ForkResources,
    handlers: usize,
)
    requires
        options.vfork,
        p.state == State::Running,
        resources.pid is Ok,
        m.contains_key(p.pid),
        m[p.pid] == (ProcessView {
            children: with_pid(p.children, resources.pid->Ok_0),
            ..p.forking(options)
        }),
    ensures
        !m[p.pid].can_run(),
        ({
            let child = p.child(p.pid, options, resources, handlers);
            &&& child.can_run()
            &&& child.mem_space == p.mem_space
            &&& parent_released(m, child)[p.pid].can_run()
            &&& after_exit(m, child)[p.pid].can_run()
            &&& child.with_vfork_reset().vfork_state == VForkState::Inactive
        }),
{
    let child = p.child(p.pid, options, resources, handlers);
    lemma_living(m, child.children, child.pid);
}

/// A new process runs, with the identity of its parent but none of its pending
/// signals, children or group members.
pub proof fn law_fork_child(
    p: ProcessView,
    parent: Pid,
    options: ForkOptions,
    resources: ForkResources,
    handlers: usize,
)
    requires
        p.wf(),
    ensures
        ({
            let child = p.child(parent, options, resources, handlers);
            &&& child.wf()
            &&& child.can_run()
            &&& child.next_signal() is None
            &&& child.parent == Some(parent)
            &&& child.children.len() == 0
            &&& child.process_group.len() == 0
            &&& child.pgid == p.pgid
            &&& child.uid == p.uid && child.euid == p.euid && child.suid == p.suid
            &&& child.gid == p.gid && child.egid == p.egid && child.sgid == p.sgid
            &&& child.sigmask == p.sigmask
            &&& child.regs == p.regs
            &&& options.share_memory || options.vfork ==> child.mem_space == p.mem_space
            &&& options.share_fd ==> child.file_descriptors == p.file_descriptors
        }),
{
    let child = p.child(parent, options, resources, handlers);
    if !child.handling() {
        law_next_signal(child);
    }
}

/// A new process has the signal handlers of its parent. If they are not shared,
/// a handler that one of the two sets later does not concern the other.
pub proof fn law_fork_handlers(
    before: Seq<HandlerTableView>,
    after: Seq<HandlerTableView>,
    table: int,
    handlers: int,
    options: ForkOptions,
    sig: Signal,
    handler: SignalHandler,
)
    requires
        0 <= table < before.len(),
        before[table].users > 0,
        handlers_forked(before, after, table, handlers, options),
    ensures
        0 <= handlers < after.len(),
        after[handlers].users > 0,
        after[handlers].handlers == before[table].handlers,
        after[table].handlers == before[table].handlers,
        options.share_sighand ==> handlers == table && after[table].users == before[table].users
            + 1,
        !options.share_sighand ==> {
            &&& handlers != table
            &&& with_handler(after, table, sig, handler)[handlers] == after[handlers]
            &&& with_handler(after, handlers, sig, handler)[table] == after[table]
        },
{
}

/// The processes that use the table of signal handlers at index `table`.
pub open spec fn users_of(all: Map<Pid, ProcessView>, table: int) -> Set<Pid> {
    Set::new(|pid: Pid| all.contains_key(pid) && all[pid].signal_handlers == table)
}

/// Each process has a table of signal handlers, and each table counts the
/// processes that use it.
pub open spec fn handlers_counted(
    all: Map<Pid, ProcessView>,
    tables: Seq<HandlerTableView>,
) -> bool {
    &&& all.dom().finite()
    &&& forall|pid: Pid| #[trigger]
        all.contains_key(pid) ==> all[pid].signal_handlers < tables.len()
    &&& forall|i: int|
        0 <= i < tables.len() ==> (#[trigger] tables[i]).users == users_of(all, i).len()
}

/// The table of signal handlers of a process is in use.
pub proof fn law_handlers_of_a_process_are_in_use(
    all: Map<Pid, ProcessView>,
    tables: Seq<HandlerTableView>,
    pid: Pid,
)
    requires
        handlers_counted(all, tables),
        all.contains_key(pid),
    ensures
        all[pid].signal_handlers < tables.len(),
        tables[all[pid].signal_handlers as int].users > 0,
{
    let users = users_of(all, all[pid].signal_handlers as int);
    lemma_users_finite(all, all[pid].signal_handlers as int);
    assert(users.contains(pid));
    if users.len() == 0 {
        assert(users =~= Set::empty());
    }
}

proof fn lemma_users_finite(all: Map<Pid, ProcessView>, table: int)
    requires
        all.dom().finite(),
    ensures
        users_of(all, table).finite(),
{
    assert(users_of(all, table).subset_of(all.dom()));
    vstd::set_lib::lemma_set_subset_finite(all.dom(), users_of(all, table));
}

/// One more process uses one more table, or uses a table once more.
proof fn lemma_one_more_user(all: Map<Pid, ProcessView>, q: ProcessView, table: int)
    requires
        all.dom().finite(),
        !all.contains_key(q.pid),
    ensures
        users_of(with_process(all, q), table).len() == users_of(all, table).len() + (
        if q.signal_handlers == table {
            1nat
        } else {
            0nat
        }),
{
    lemma_users_finite(all, table);
    let after = users_of(with_process(all, q), table);
    if q.signal_handlers == table {
        assert(after =~= users_of(all, table).insert(q.pid));
    } else {
        assert(after =~= users_of(all, table));
    }
}

/// The creation of a process with a table of its own keeps the count of the
/// users of handlers.
pub proof fn law_new_counts_handlers(
    all: Map<Pid, ProcessView>,
    before: Seq<HandlerTableView>,
    after: Seq<HandlerTableView>,
    q: ProcessView,
    handlers: Seq<SignalHandler>,
)
    requires
        handlers_counted(all, before),
        !all.contains_key(q.pid),
        added(before, after, q.signal_handlers as int, handlers),
    ensures
        handlers_counted(with_process(all, q), after),
{
    let end = with_process(all, q);
    assert forall|i: int| 0 <= i < after.len() implies (#[trigger] after[i]).users == users_of(
        end,
        i,
    ).len() by {
        lemma_one_more_user(all, q, i);
        if i == before.len() {
            assert(users_of(all, i) =~= Set::empty());
        }
    }
}

/// A fork keeps the count of the users of handlers.
pub proof fn law_fork_counts_handlers(
    m: Map<Pid, ProcessView>,
    p: ProcessView,
    before: Seq<HandlerTableView>,
    after: Seq<HandlerTableView>,
    parent: Pid,
    options: ForkOptions,
    resources: ForkResources,
    handlers: usize,
)
    requires
        !m.contains_key(p.pid),
        handlers_counted(with_process(m, p), before),
        handlers_forked(
            before,
            after,
            p.signal_handlers as int,
            handlers as int,
            options,
        ),
        resources.pid matches Ok(pid) && !m.contains_key(pid) && pid != p.pid,
    ensures
        ({
            let pid = resources.pid->Ok_0;
            let child = p.child(parent, options, resources, handlers);
            let q = ProcessView { children: with_pid(p.children, pid), ..p.forking(options) };
            handlers_counted(with_process(with_process(m, child), q), after)
        }),
{
    let all = with_process(m, p);
    let pid = resources.pid->Ok_0;
    let child = p.child(parent, options, resources, handlers);
    let q = ProcessView { children: with_pid(p.children, pid), ..p.forking(options) };
    let middle = with_process(all, child);
    let end = with_process(with_process(m, child), q);
    assert(all.contains_key(p.pid));
    if options.share_sighand {
        assert forall|i: int| 0 <= i < after.len() implies (#[trigger] after[i]).users == users_of(
            middle,
            i,
        ).len() by {
            lemma_one_more_user(all, child, i);
        }
    } else {
        let copied = before[p.signal_handlers as int].handlers;
        law_new_counts_handlers(all, before, after, child, copied);
    }
    assert(end.dom() =~= middle.dom());
    assert forall|x: Pid| #[trigger] end.contains_key(x) implies end[x].signal_handlers
        < after.len() by {
        assert(middle.contains_key(x));
        assert(end[x].signal_handlers == middle[x].signal_handlers);
    }
    assert forall|i: int| 0 <= i < after.len() implies (#[trigger] after[i]).users == users_of(
        end,
        i,
    ).len() by {
        assert(users_of(end, i) =~= users_of(middle, i));
    }
}

/// The disappearance of a process keeps the count of the users of handlers.
pub proof fn law_drop_counts_handlers(
    m: Map<Pid, ProcessView>,
    p: ProcessView,
    before: Seq<HandlerTableView>,
)
    requires
        !m.contains_key(p.pid),
        handlers_counted(with_process(m, p), before),
    ensures
        before[p.signal_handlers as int].users > 0,
        handlers_counted(
            m,
            with_users(
                before,
                p.signal_handlers as int,
                (before[p.signal_handlers as int].users - 1) as nat,
            ),
        ),
{
    let all = with_process(m, p);
    let table = p.signal_handlers as int;
    let after = with_users(before, table, (before[table].users - 1) as nat);
    law_handlers_of_a_process_are_in_use(all, before, p.pid);
    assert(m.dom() =~= all.dom().remove(p.pid));
    assert forall|x: Pid| #[trigger] m.contains_key(x) implies m[x].signal_handlers
        < after.len() by {
        assert(all.contains_key(x));
    }
    assert forall|i: int| 0 <= i < after.len() implies (#[trigger] after[i]).users == users_of(
        m,
        i,
    ).len() by {
        lemma_one_more_user(m, p, i);
        assert(before[i].users == users_of(all, i).len());
    }
}

// Memory spaces and file descriptors tables

/// The processes of `after` are those of `before`, with the same memory spaces
/// and file descriptors tables.
pub open spec fn same_references(
    before: Map<Pid, ProcessView>,
    after: Map<Pid, ProcessView>,
) -> bool {
    &&& forall|pid: Pid| #[trigger] after.contains_key(pid) <==> before.contains_key(pid)
    &&& forall|pid: Pid| #[trigger]
        before.contains_key(pid) ==> after[pid].references() == before[pid].references()
}

/// What a process held and no process holds once it has become `q` is what has
/// been lost: each memory space or table of which the process was the last
/// holder, and no other.
pub proof fn law_last_holder_frees(
    m: Map<Pid, ProcessView>,
    p: ProcessView,
    after: Map<Pid, ProcessView>,
    q: ProcessView,
    mem_space: usize,
    fds: usize,
)
    requires
        !m.contains_key(p.pid),
        q.pid == p.pid,
        same_references(m, after),
    ensures
        ({
            let start = with_process(m, p);
            let end = with_process(after, q);
            let lost = unheld(end, p.references());
            &&& lost.mem_space == Some(mem_space) <==> mem_space_held(start, mem_space)
                && !mem_space_held(end, mem_space)
            &&& lost.mem_space == Some(mem_space) <==> p.mem_space == Some(mem_space)
                && q.mem_space != Some(mem_space) && !mem_space_held(m, mem_space)
            &&& lost.file_descriptors == Some(fds) <==> fds_held(start, fds) && !fds_held(end, fds)
            &&& lost.file_descriptors == Some(fds) <==> p.file_descriptors == Some(fds)
                && q.file_descriptors != Some(fds) && !fds_held(m, fds)
        }),
{
    lemma_held(m, p, mem_space, fds);
    lemma_held(after, q, mem_space, fds);
    lemma_same_held(m, after, mem_space, fds);
    lemma_same_held(after, m, mem_space, fds);
}

/// With `p` among the processes, a memory space or a table is held by `p` or by
/// the others.
proof fn lemma_held(m: Map<Pid, ProcessView>, p: ProcessView, mem_space: usize, fds: usize)
    requires
        !m.contains_key(p.pid),
    ensures
        mem_space_held(with_process(m, p), mem_space) <==> mem_space_held(m, mem_space)
            || p.mem_space == Some(mem_space),
        fds_held(with_process(m, p), fds) <==> fds_held(m, fds) || p.file_descriptors == Some(fds),
{
    let all = with_process(m, p);
    assert(all.contains_key(p.pid));
    if mem_space_held(m, mem_space) {
        let x = choose|x: Pid| #[trigger]
            m.contains_key(x) && m[x].mem_space == Some(mem_space);
        assert(all.contains_key(x));
    }
    if mem_space_held(all, mem_space) {
        let x = choose|x: Pid| #[trigger]
            all.contains_key(x) && all[x].mem_space == Some(mem_space);
        assert(x == p.pid || m.contains_key(x));
    }
    if fds_held(m, fds) {
        let x = choose|x: Pid| #[trigger] m.contains_key(x) && m[x].file_descriptors == Some(fds);
        assert(all.contains_key(x));
    }
    if fds_held(all, fds) {
        let x = choose|x: Pid| #[trigger]
            all.contains_key(x) && all[x].file_descriptors == Some(fds);
        assert(x == p.pid || m.contains_key(x));
    }
}

proof fn lemma_same_held(
    before: Map<Pid, ProcessView>,
    after: Map<Pid, ProcessView>,
    mem_space: usize,
    fds: usize,
)
    requires
        same_references(before, after) || same_references(after, before),
    ensures
        mem_space_held(before, mem_space) ==> mem_space_held(after, mem_space),
        fds_held(before, fds) ==> fds_held(after, fds),
{
    if mem_space_held(before, mem_space) {
        let x = choose|x: Pid| #[trigger]
            before.contains_key(x) && before[x].mem_space == Some(mem_space);
        assert(after.contains_key(x));
        assert(after[x].references() == before[x].references());
    }
    if fds_held(before, fds) {
        let x = choose|x: Pid| #[trigger]
            before.contains_key(x) && before[x].file_descriptors == Some(fds);
        assert(after.contains_key(x));
        assert(after[x].references() == before[x].references());
    }
}

/// A process that gets another memory space gives up the previous one, which is
/// to be freed if no other process holds it.
pub proof fn law_set_mem_space_gives_up_the_previous(
    m: Map<Pid, ProcessView>,
    p: ProcessView,
    mem_space: Option<usize>,
    previous: usize,
)
    requires
        !m.contains_key(p.pid),
        p.mem_space == Some(previous),
        mem_space != Some(previous),
    ensures
        ({
            let q = ProcessView { mem_space, ..p };
            &&& unheld(with_process(m, q), p.references()).mem_space == (if mem_space_held(
                m,
                previous,
            ) {
                None
            } else {
                Some(previous)
            })
            &&& unheld(with_process(m, q), p.references()).file_descriptors is None
        }),
{
    let q = ProcessView { mem_space, ..p };
    lemma_held(m, q, previous, 0);
    if p.file_descriptors is Some {
        lemma_held(m, q, previous, p.file_descriptors->0);
    }
}

/// A process that terminates gives up its file descriptors table, which is to be
/// freed if no other process holds it. It holds its memory space until it
/// disappears. No other process gives up anything.
pub proof fn law_exit_gives_up_fds(
    m: Map<Pid, ProcessView>,
    p: ProcessView,
    status: u32,
    signaled: bool,
)
    requires
        !m.contains_key(p.pid),
        p.state != State::Zombie,
        p.parent matches Some(parent) ==> m.contains_key(parent),
    ensures
        same_references(m, after_state(m, p, State::Zombie)),
        same_references(m, after_exit(m, p)),
        p.with_state(State::Zombie).mem_space == p.mem_space,
        p.exited(status, signaled).mem_space == p.mem_space,
        ({
            let set = with_process(after_state(m, p, State::Zombie), p.with_state(State::Zombie));
            let end = with_process(after_exit(m, p), p.exited(status, signaled));
            &&& unheld(set, p.references()) == unheld(end, p.references())
            &&& unheld(end, p.references()).mem_space is None
            &&& unheld(end, p.references()).file_descriptors == (match p.file_descriptors {
                Some(fds) => if fds_held(m, fds) {
                    None
                } else {
                    Some(fds)
                },
                None => None,
            })
        }),
{
    let mem_space = if p.mem_space is Some {
        p.mem_space->0
    } else {
        0
    };
    let fds = if p.file_descriptors is Some {
        p.file_descriptors->0
    } else {
        0
    };
    let set = after_state(m, p, State::Zombie);
    let end = after_exit(m, p);
    law_last_holder_frees(m, p, set, p.with_state(State::Zombie), mem_space, fds);
    law_last_holder_frees(m, p, end, p.exited(status, signaled), mem_space, fds);
}

/// A process that disappears gives up its memory space and its file descriptors
/// table. What is to be freed is what no process holds any more.
pub proof fn law_drop_gives_up_all(m: Map<Pid, ProcessView>, p: ProcessView, id: usize)
    requires
        !m.contains_key(p.pid),
    ensures
        unheld(m, p.release().given_up).mem_space == Some(id) <==> mem_space_held(
            with_process(m, p),
            id,
        ) && !mem_space_held(m, id),
        unheld(m, p.release().given_up).file_descriptors == Some(id) <==> fds_held(
            with_process(m, p),
            id,
        ) && !fds_held(m, id),
{
    lemma_held(m, p, id, id);
}

/// A fork takes nothing from any process: what was held before is held after,
/// and so is what the new process got.
pub proof fn law_fork_keeps_holders(
    m: Map<Pid, ProcessView>,
    p: ProcessView,
    parent: Pid,
    options: ForkOptions,
    resources: ForkResources,
    handlers: usize,
    id: usize,
)
    requires
        !m.contains_key(p.pid),
        resources.pid matches Ok(pid) && !m.contains_key(pid) && pid != p.pid,
    ensures
        ({
            let child = p.child(parent, options, resources, handlers);
            let q = ProcessView {
                children: with_pid(p.children, resources.pid->Ok_0),
                ..p.forking(options)
            };
            let start = with_process(m, p);
            let end = with_process(with_process(m, child), q);
            &&& mem_space_held(end, id) <==> mem_space_held(start, id) || child.mem_space == Some(
                id,
            )
            &&& fds_held(end, id) <==> fds_held(start, id) || child.file_descriptors == Some(id)
        }),
{
    let child = p.child(parent, options, resources, handlers);
    let q = ProcessView {
        children: with_pid(p.children, resources.pid->Ok_0),
        ..p.forking(options)
    };
    lemma_held(m, p, id, id);
    lemma_held(m, child, id, id);
    lemma_held(with_process(m, child), q, id, id);
}

/// When a fork fails, the copies that were made for the new process are to be
/// freed, and nothing that a process holds is.
pub proof fn law_failed_fork_frees_copies(
    all: Map<Pid, ProcessView>,
    p: ProcessView,
    parent: Pid,
    options: ForkOptions,
    resources: ForkResources,
)
    requires
        all.contains_key(p.pid),
        all[p.pid].references() == p.references(),
        fork_failure(p, parent, options, resources) is Some,
        resources.mem_space matches Ok(id) ==> !mem_space_held(all, id),
        resources.file_descriptors matches Ok(id) ==> !fds_held(all, id),
    ensures
        ({
            let failure = fork_failure(p, parent, options, resources)->0;
            let given_up = match failure.release {
                Some(release) => release.given_up,
                None => failure.given_up,
            };
            let has_memory = resources.pid is Ok && resources.memory_error(options) is None;
            let has_fds = has_memory && resources.fd_error(p, options) is None;
            unheld(all, given_up) == (References {
                mem_space: if has_memory && !options.shares_memory() {
                    Some(resources.mem_space->Ok_0)
                } else {
                    None
                },
                file_descriptors: if has_fds && !options.share_fd && p.file_descriptors is Some {
                    Some(resources.file_descriptors->Ok_0)
                } else {
                    None
                },
            })
        }),
{
}

/// Signals take nothing from any process.
pub proof fn law_signals_keep_holders(
    all: Map<Pid, ProcessView>,
    receiving: Seq<Pid>,
    sig: Signal,
    no_handler: bool,
)
    ensures
        same_references(all, signaled(all, receiving, sig, no_handler)),
{
}

/// Moving a process to another group takes nothing from any process.
pub proof fn law_set_pgid_keeps_holders(m: Map<Pid, ProcessView>, p: ProcessView, target: Pid)
    requires
        target == p.pid || m.contains_key(target),
    ensures
        same_references(m, regrouped(m, p, target)),
{
}

// Parents and children

/// Removing a child undoes adding it.
pub proof fn law_remove_undoes_add(s: Seq<Pid>, pid: Pid)
    requires
        sorted(s),
    ensures
        with_pid(s, pid).remove_value(pid) == s,
        with_pid(s, pid).contains(pid),
{
    lemma_rank(s, pid);
    lemma_with_pid(s, pid);
    let t = with_pid(s, pid);
    t.index_of_first_ensures(pid);
    let k = t.index_of_first(pid)->0;
    let r = rank(s, pid) as int;
    assert(t[r] == pid);
    if k < r {
        assert(t[k] == s[k]);
    }
    assert(t.remove(k) =~= s);
}

proof fn lemma_living(m: Map<Pid, ProcessView>, children: Seq<Pid>, pid: Pid)
    ensures
        forall|c: Pid| #[trigger]
            living(m, children, pid).contains(c) <==> children.contains(c) && c != pid
                && m.contains_key(c),
    decreases children.len(),
{
    if children.len() > 0 {
        let rest = children.drop_last();
        lemma_living(m, rest, pid);
        let before = living(m, rest, pid);
        let after = living(m, children, pid);
        assert forall|c: Pid| #[trigger] after.contains(c) <==> children.contains(c) && c != pid
            && m.contains_key(c) by {
            assert(children[children.len() - 1] == children.last());
            if rest.contains(c) {
                let i = choose|i: int| 0 <= i < rest.len() && rest[i] == c;
                assert(children[i] == c);
            }
            if children.contains(c) && c != children.last() {
                let i = choose|i: int| 0 <= i < children.len() && children[i] == c;
                assert(rest[i] == c);
            }
            if after.len() > before.len() {
                assert(after[before.len() as int] == children.last());
            }
            if before.contains(c) {
                let i = choose|i: int| 0 <= i < before.len() && before[i] == c;
                assert(after[i] == c);
            }
            if after.contains(c) && c != children.last() {
                let i = choose|i: int| 0 <= i < after.len() && after[i] == c;
                assert(before[i] == c);
            }
        }
    }
}

/// When a process terminates, the init process becomes the parent of each of
/// its children that still exist. No other process gets another parent.
pub proof fn law_orphans_are_adopted(m: Map<Pid, ProcessView>, p: ProcessView, pid: Pid)
    requires
        p.state != State::Zombie,
        can_set_state(m, p, State::Zombie),
        m[INIT_PID].wf(),
        m.contains_key(pid),
        pid != p.pid,
    ensures
        after_state(m, p, State::Zombie).dom() == m.dom(),
        p.children.contains(pid) ==> {
            &&& after_state(m, p, State::Zombie)[pid].parent == Some(INIT_PID)
            &&& after_state(m, p, State::Zombie)[INIT_PID].children.contains(pid)
        },
        !p.children.contains(pid) ==> after_state(m, p, State::Zombie)[pid].parent
            == m[pid].parent,
        m[INIT_PID].children.contains(pid) ==> after_state(
            m,
            p,
            State::Zombie,
        )[INIT_PID].children.contains(pid),
{
    let orphans = living(m, p.children, p.pid);
    lemma_living(m, p.children, p.pid);
    lemma_with_all(m[INIT_PID].children, orphans);
    assert(after_state(m, p, State::Zombie).dom() =~= m.dom());
}

/// The processes are well formed and held under their own IDs.
pub open spec fn well_formed(all: Map<Pid, ProcessView>) -> bool {
    forall|pid: Pid| #[trigger] all.contains_key(pid) ==> all[pid].wf() && all[pid].pid == pid
}

/// Each process that has a parent is listed by it as a child, and the parent
/// has not terminated. The init process has no parent and has not terminated.
pub open spec fn family(all: Map<Pid, ProcessView>) -> bool {
    &&& all.contains_key(INIT_PID) ==> all[INIT_PID].state != State::Zombie
        && all[INIT_PID].parent is None
    &&& forall|pid: Pid| #[trigger]
        all.contains_key(pid) ==> (all[pid].parent matches Some(parent) ==> {
            &&& parent != pid
            &&& all.contains_key(parent)
            &&& all[parent].children.contains(pid)
            &&& all[parent].state != State::Zombie
        })
}

/// The processes `m`, with `p` among them.
pub open spec fn with_process(m: Map<Pid, ProcessView>, p: ProcessView) -> Map<Pid, ProcessView> {
    m.insert(p.pid, p)
}

/// When a process exits, no process is left with a terminated parent: none has
/// the exited process as its parent, and all have a parent that lists them.
pub proof fn law_exit_leaves_no_orphan(
    m: Map<Pid, ProcessView>,
    p: ProcessView,
    status: u32,
    signaled: bool,
)
    requires
        !m.contains_key(p.pid),
        well_formed(with_process(m, p)),
        family(with_process(m, p)),
        p.state != State::Zombie,
        can_set_state(m, p, State::Zombie),
    ensures
        family(with_process(after_exit(m, p), p.exited(status, signaled))),
        forall|pid: Pid| #[trigger]
            after_exit(m, p).contains_key(pid) ==> after_exit(m, p)[pid].parent != Some(p.pid),
{
    let all = with_process(m, p);
    let orphans = living(m, p.children, p.pid);
    let q = p.exited(status, signaled);
    let after = after_exit(m, p);
    let end = with_process(after, q);
    lemma_living(m, p.children, p.pid);
    assert(all.contains_key(INIT_PID));
    assert(all.contains_key(p.pid));
    lemma_with_all(m[INIT_PID].children, orphans);
    assert forall|pid: Pid| #[trigger] after.contains_key(pid) implies after[pid].parent != Some(
        p.pid,
    ) by {
        lemma_exit_frame(m, p, pid);
        assert(all.contains_key(pid));
    }
    assert forall|pid: Pid| #[trigger] end.contains_key(pid) implies (
    end[pid].parent matches Some(parent) ==> {
        &&& parent != pid
        &&& end.contains_key(parent)
        &&& end[parent].children.contains(pid)
        &&& end[parent].state != State::Zombie
    }) by {
        lemma_exit_frame(m, p, pid);
        assert(all.contains_key(pid));
        if end[pid].parent is Some {
            lemma_exit_frame(m, p, end[pid].parent->0);
        }
    }
    lemma_exit_frame(m, p, INIT_PID);
}

/// What the end of `p` means for the place of `pid` in the family.
proof fn lemma_exit_frame(m: Map<Pid, ProcessView>, p: ProcessView, pid: Pid)
    requires
        p.state != State::Zombie,
        p.parent matches Some(parent) ==> m.contains_key(parent),
    ensures
        after_exit(m, p).contains_key(pid) == m.contains_key(pid),
        m.contains_key(pid) ==> {
            let orphans = living(m, p.children, p.pid);
            let q = after_exit(m, p)[pid];
            &&& q.parent == (if pid != INIT_PID && orphans.contains(pid) {
                Some(INIT_PID)
            } else {
                m[pid].parent
            })
            &&& q.children == (if pid == INIT_PID {
                with_all(m[pid].children, orphans)
            } else {
                m[pid].children
            })
            &&& (q.state == State::Zombie) == (m[pid].state == State::Zombie)
        },
{
}

/// A process created by a fork is listed as a child by the process that forked.
pub proof fn law_fork_keeps_family(
    m: Map<Pid, ProcessView>,
    p: ProcessView,
    options: ForkOptions,
    resources: ForkResources,
    handlers: usize,
)
    requires
        !m.contains_key(p.pid),
        well_formed(with_process(m, p)),
        family(with_process(m, p)),
        p.state == State::Running,
        resources.pid matches Ok(pid) && !m.contains_key(pid) && pid != p.pid && pid != INIT_PID,
    ensures
        ({
            let pid = resources.pid->Ok_0;
            let child = p.child(p.pid, options, resources, handlers);
            let parent = ProcessView {
                children: with_pid(p.children, pid),
                ..p.forking(options)
            };
            &&& family(with_process(with_process(m, child), parent))
            &&& parent.children.contains(pid)
        }),
{
    let all = with_process(m, p);
    let pid = resources.pid->Ok_0;
    let child = p.child(p.pid, options, resources, handlers);
    let parent = ProcessView { children: with_pid(p.children, pid), ..p.forking(options) };
    let end = with_process(with_process(m, child), parent);
    assert(all.contains_key(p.pid));
    lemma_with_pid(p.children, pid);
    assert forall|x: Pid| #[trigger] end.contains_key(x) implies (
    end[x].parent matches Some(y) ==> {
        &&& y != x
        &&& end.contains_key(y)
        &&& end[y].children.contains(x)
        &&& end[y].state != State::Zombie
    }) by {
        if x != pid {
            assert(all.contains_key(x));
            assert(end[x].parent == all[x].parent);
        }
    }
}

/// Signals do not change who is whose parent, nor terminate anyone before they
/// are executed.
pub proof fn law_signals_keep_family(
    all: Map<Pid, ProcessView>,
    receiving: Seq<Pid>,
    sig: Signal,
    no_handler: bool,
)
    requires
        family(all),
    ensures
        family(signaled(all, receiving, sig, no_handler)),
{
    let end = signaled(all, receiving, sig, no_handler);
    assert forall|x: Pid| #[trigger] end.contains_key(x) implies (
    end[x].parent matches Some(y) ==> {
        &&& y != x
        &&& end.contains_key(y)
        &&& end[y].children.contains(x)
        &&& end[y].state != State::Zombie
    }) by {
        assert(all.contains_key(x));
    }
}

/// Moving a process to another group does not change who is whose parent.
pub proof fn law_set_pgid_keeps_family(m: Map<Pid, ProcessView>, p: ProcessView, target: Pid)
    requires
        !m.contains_key(p.pid),
        family(with_process(m, p)),
        target == p.pid || m.contains_key(target),
    ensures
        family(with_process(regrouped(m, p, target), ProcessView { pgid: target, ..p })),
{
    let all = with_process(m, p);
    let end = with_process(regrouped(m, p, target), ProcessView { pgid: target, ..p });
    assert forall|x: Pid| #[trigger] end.contains_key(x) implies (
    end[x].parent matches Some(y) ==> {
        &&& y != x
        &&& end.contains_key(y)
        &&& end[y].children.contains(x)
        &&& end[y].state != State::Zombie
    }) by {
        assert(all.contains_key(x));
    }
}

/// A system with the init process alone has its family and its groups right.
pub proof fn law_init_process_alone(tty: usize, fds: usize, handlers: usize)
    ensures
        ({
            let init = ProcessView::init(tty, fds, handlers);
            let all = with_process(Map::empty(), init);
            &&& init.wf()
            &&& init.is_init()
            &&& init.can_run()
            &&& well_formed(all)
            &&& family(all)
            &&& groups(all)
        }),
{
}

// Process groups

/// The members listed by the owner of a group are other processes, and each
/// that still exists is in that group.
pub open spec fn groups(all: Map<Pid, ProcessView>) -> bool {
    forall|owner: Pid, pid: Pid|
        #![trigger all[owner].process_group.contains(pid)]
        all.contains_key(owner) && all[owner].process_group.contains(pid) ==> {
            &&& owner != 0
            &&& pid != owner
            &&& all.contains_key(pid) ==> all[pid].pgid == owner
        }
}

/// Moving a process to another group keeps the lists of group members right.
/// The owner of the new group did not list the process before and lists it now;
/// the owner of the old group no longer does.
pub proof fn law_set_pgid_keeps_groups(m: Map<Pid, ProcessView>, p: ProcessView, pgid: Pid)
    requires
        !m.contains_key(p.pid),
        well_formed(with_process(m, p)),
        groups(with_process(m, p)),
        p.requested_pgid(pgid) != p.pgid,
        p.requested_pgid(pgid) == p.pid || m.contains_key(p.requested_pgid(pgid)),
    ensures
        ({
            let target = p.requested_pgid(pgid);
            let q = ProcessView { pgid: target, ..p };
            let after = regrouped(m, p, target);
            &&& groups(with_process(after, q))
            &&& target != p.pid ==> !m[target].process_group.contains(p.pid)
            &&& target != p.pid ==> after[target].process_group.contains(p.pid)
            &&& p.in_group() && m.contains_key(p.pgid) ==> !after[p.pgid].process_group.contains(
                p.pid,
            )
        }),
{
    let all = with_process(m, p);
    let target = p.requested_pgid(pgid);
    let q = ProcessView { pgid: target, ..p };
    let after = regrouped(m, p, target);
    let end = with_process(after, q);
    assert(all.contains_key(p.pid));
    if target != p.pid {
        assert(all.contains_key(target));
        assert(all[target] == m[target]);
        assert(all[target].process_group.contains(p.pid) ==> all[p.pid].pgid == target);
        lemma_with_pid(m[target].process_group, p.pid);
    }
    if p.in_group() && m.contains_key(p.pgid) {
        assert(all.contains_key(p.pgid));
        lemma_removed(m[p.pgid].process_group, p.pid);
    }
    assert forall|owner: Pid, pid: Pid|
        #![trigger end[owner].process_group.contains(pid)]
        end.contains_key(owner) && end[owner].process_group.contains(pid) implies {
        &&& owner != 0
        &&& pid != owner
        &&& end.contains_key(pid) ==> end[pid].pgid == owner
    } by {
        assert(all.contains_key(owner));
        if pid == p.pid && owner == target && target != p.pid {
        } else {
            assert(all[owner].process_group.contains(pid));
            if pid == p.pid {
                assert(p.pgid == owner);
                assert(false);
            }
        }
    }
}

proof fn lemma_removed(s: Seq<Pid>, pid: Pid)
    requires
        strictly_sorted(s),
    ensures
        forall|x: Pid| #[trigger] s.remove_value(pid).contains(x) <==> s.contains(x) && x != pid,
{
    s.index_of_first_ensures(pid);
    let t = s.remove_value(pid);
    assert forall|x: Pid| #[trigger] t.contains(x) <==> s.contains(x) && x != pid by {
        if s.contains(pid) {
            let k = s.index_of_first(pid)->0;
            if t.contains(x) {
                let i = choose|i: int| 0 <= i < t.len() && t[i] == x;
                assert(s[if i < k { i } else { i + 1 }] == x);
            }
            if s.contains(x) && x != pid {
                let i = choose|i: int| 0 <= i < s.len() && s[i] == x;
                assert(t[if i < k { i } else { i - 1 }] == x);
            }
        }
    }
}

/// A process that asks for the group zero owns its own group.
pub proof fn law_group_zero_is_own_group(p: ProcessView)
    ensures
        p.requested_pgid(0) == p.pid,
        !(ProcessView { pgid: p.requested_pgid(0), ..p }).in_group(),
{
}

/// A new process is in the group of the process that forked. If no owner lists
/// its ID already, the lists of group members stay right.
pub proof fn law_fork_keeps_groups(
    m: Map<Pid, ProcessView>,
    p: ProcessView,
    parent: Pid,
    options: ForkOptions,
    resources: ForkResources,
    handlers: usize,
)
    requires
        !m.contains_key(p.pid),
        groups(with_process(m, p)),
        resources.pid matches Ok(pid) && !m.contains_key(pid) && pid != p.pid,
        forall|owner: Pid| #[trigger]
            with_process(m, p).contains_key(owner) ==> !with_process(
                m,
                p,
            )[owner].process_group.contains(resources.pid->Ok_0),
    ensures
        ({
            let pid = resources.pid->Ok_0;
            let child = p.child(parent, options, resources, handlers);
            let after = ProcessView {
                children: with_pid(p.children, pid),
                ..p.forking(options)
            };
            &&& groups(with_process(with_process(m, child), after))
            &&& child.pgid == p.pgid
        }),
{
    let all = with_process(m, p);
    let pid = resources.pid->Ok_0;
    let child = p.child(parent, options, resources, handlers);
    let after = ProcessView { children: with_pid(p.children, pid), ..p.forking(options) };
    let end = with_process(with_process(m, child), after);
    assert forall|owner: Pid, x: Pid|
        #![trigger end[owner].process_group.contains(x)]
        end.contains_key(owner) && end[owner].process_group.contains(x) implies {
        &&& owner != 0
        &&& x != owner
        &&& end.contains_key(x) ==> end[x].pgid == owner
    } by {
        if owner != pid {
            assert(all.contains_key(owner));
            assert(all[owner].process_group.contains(x));
        }
    }
}

/// Signals do not change any group.
pub proof fn law_signals_keep_groups(
    all: Map<Pid, ProcessView>,
    receiving: Seq<Pid>,
    sig: Signal,
    no_handler: bool,
)
    requires
        groups(all),
    ensures
        groups(signaled(all, receiving, sig, no_handler)),
{
    let end = signaled(all, receiving, sig, no_handler);
    assert forall|owner: Pid, x: Pid|
        #![trigger end[owner].process_group.contains(x)]
        end.contains_key(owner) && end[owner].process_group.contains(x) implies {
        &&& owner != 0
        &&& x != owner
        &&& end.contains_key(x) ==> end[x].pgid == owner
    } by {
        assert(all[owner].process_group.contains(x));
    }
}

/// A signal sent to the group of a process reaches every other process of the
/// group, however it came into it, and no process outside the group.
pub proof fn law_group_signals_reach_the_group(
    m: Map<Pid, ProcessView>,
    p: ProcessView,
    sig: Signal,
    no_handler: bool,
    pid: Pid,
)
    requires
        m.contains_key(pid),
        pid != p.pid,
    ensures
        ({
            let list = group_below(m, p, u16::MAX + 1);
            &&& list.no_duplicates()
            &&& list.contains(pid) <==> m[pid].pgid == p.pgid
            &&& signaled(m, list, sig, no_handler)[pid] == (if m[pid].pgid == p.pgid {
                m[pid].killed(sig, no_handler)
            } else {
                m[pid]
            })
        }),
{
    lemma_group_below(m, p, u16::MAX + 1);
    assert(in_group_of(m, p, pid) == (m[pid].pgid == p.pgid));
}

/// The list of the processes in the group of a process holds this process and
/// every other one of the group, however it came into it, once.
pub proof fn law_group_lists_every_member(m: Map<Pid, ProcessView>, p: ProcessView, pid: Pid)
    ensures
        ({
            let list = with_pid(group_below(m, p, u16::MAX + 1), p.pid);
            &&& list.no_duplicates()
            &&& list.contains(pid) <==> pid == p.pid || (m.contains_key(pid) && m[pid].pgid
                == p.pgid)
        }),
{
    lemma_group_below(m, p, u16::MAX + 1);
    lemma_with_pid(group_below(m, p, u16::MAX + 1), p.pid);
    assert(in_group_of(m, p, pid) == (m.contains_key(pid) && pid != p.pid && m[pid].pgid
        == p.pgid));
    assert(!in_group_of(m, p, p.pid));
}

/// A new process is reached by the signals sent to the group of the process
/// that forked.
pub proof fn law_group_signals_reach_forked_processes(
    m: Map<Pid, ProcessView>,
    p: ProcessView,
    parent: Pid,
    options: ForkOptions,
    resources: ForkResources,
    handlers: usize,
)
    requires
        resources.pid matches Ok(pid) && pid != p.pid,
    ensures
        group_below(
            with_process(m, p.child(parent, options, resources, handlers)),
            p,
            u16::MAX + 1,
        ).contains(resources.pid->Ok_0),
{
    let child = p.child(parent, options, resources, handlers);
    lemma_group_below(with_process(m, child), p, u16::MAX + 1);
    assert(in_group_of(with_process(m, child), p, resources.pid->Ok_0));
}

/// The end of a process does not change any group.
pub proof fn law_exit_keeps_groups(
    m: Map<Pid, ProcessView>,
    p: ProcessView,
    status: u32,
    signaled: bool,
)
    requires
        !m.contains_key(p.pid),
        groups(with_process(m, p)),
        p.parent matches Some(parent) ==> m.contains_key(parent),
    ensures
        groups(with_process(after_exit(m, p), p.exited(status, signaled))),
{
    let all = with_process(m, p);
    let end = with_process(after_exit(m, p), p.exited(status, signaled));
    assert forall|owner: Pid, x: Pid|
        #![trigger end[owner].process_group.contains(x)]
        end.contains_key(owner) && end[owner].process_group.contains(x) implies {
        &&& owner != 0
        &&& x != owner
        &&& end.contains_key(x) ==> end[x].pgid == owner
    } by {
        assert(all.contains_key(owner));
        assert(all[owner].process_group.contains(x));
        assert(end.contains_key(x) ==> all.contains_key(x) && end[x].pgid == all[x].pgid);
    }
}

// The kill system call

/// If no signal is given, nothing is changed: only the result tells whether
/// there is a process that could be killed.
pub proof fn law_no_signal_changes_nothing(m: Map<Pid, ProcessView>, p: ProcessView, pid: i32)
    ensures
        sender_after(p, pid, None) == p,
        after_send(m, targets(m, p, pid), None) == m,
        all_executions(m, p, pid, None).len() == 0,
{
}

/// The argument zero and the negated ID of the sender stand for the same
/// receivers, those that joined the group of the sender, and have the same
/// outcome. This holds of the init process, too, whose negated ID does not stand
/// for all processes.
pub proof fn law_zero_stands_for_own_group(
    m: Map<Pid, ProcessView>,
    p: ProcessView,
    sig: Option<Signal>,
)
    requires
        p.pid > 0,
    ensures
        ({
            let own = (-p.pid) as i32;
            &&& receivers(0, p) == Receivers::OwnGroup
            &&& receivers(own, p) == Receivers::OwnGroup
            &&& targets(m, p, 0) == targets(m, p, own)
            &&& can_send(m, p, 0, sig) == can_send(m, p, own, sig)
            &&& send_result(m, p, 0) == send_result(m, p, own)
            &&& all_executions(m, p, 0, sig) == all_executions(m, p, own, sig)
            &&& sender_after(p, 0, sig) == sender_after(p, own, sig)
            &&& after_send(m, targets(m, p, 0), sig) == after_send(m, targets(m, p, own), sig)
        }),
{
}

/// A negative signal number acts as zero does: no signal is sent, and it is not
/// an error by itself.
pub proof fn law_negative_signal_acts_as_zero(
    m: Map<Pid, ProcessView>,
    current: Pid,
    regs: Regs,
    number: u32,
)
    requires
        (number as i32) < 0,
    ensures
        forall|n: i32| n < 0 ==> #[trigger] signal_argument(n) == signal_argument(0),
        signal_argument(0) == Ok::<Option<Signal>, Errno>(None),
        ({
            let negative = Regs { ecx: number, ..regs };
            let zero = Regs { ecx: 0, ..regs };
            &&& can_call_kill(m, Some(current), negative) == can_call_kill(m, Some(current), zero)
            &&& kill_result(m, current, negative) == kill_result(m, current, zero)
            &&& kill_executions(m, current, negative) == kill_executions(m, current, zero)
            &&& after_kill(m, current, negative) == after_kill(m, current, zero)
            &&& kill_executions(m, current, negative).len() == 0
            &&& m.contains_key(current) ==> after_kill(m, current, negative) == m
        }),
{
    if m.contains_key(current) {
        assert(m.remove(current).insert(current, m[current]) =~= m);
    }
}

/// No process is touched by a signal of a sender that is not allowed to send it
/// signals.
pub proof fn law_send_needs_permission(
    m: Map<Pid, ProcessView>,
    p: ProcessView,
    pid: i32,
    sig: Option<Signal>,
    receiver: Pid,
)
    requires
        can_send(m, p, pid, sig),
        m.contains_key(receiver),
        after_send(m, targets(m, p, pid), sig)[receiver] != m[receiver],
    ensures
        permitted(m[receiver], p.euid),
{
    let list = targets(m, p, pid);
    assert(list.contains(receiver));
    let i = choose|i: int| 0 <= i < list.len() && list[i] == receiver;
    assert(list[i] == receiver);
    if receivers(pid, p) is All {
        lemma_reached_below(m, p, u16::MAX + 1);
    }
}

/// A signal sent to all processes reaches neither the init process nor the
/// sender, but every other process that the sender may send signals to, once.
pub proof fn law_broadcast(m: Map<Pid, ProcessView>, p: ProcessView, pid: i32, receiver: Pid)
    requires
        receivers(pid, p) is All,
    ensures
        targets(m, p, pid).no_duplicates(),
        targets(m, p, pid).contains(receiver) <==> {
            &&& m.contains_key(receiver)
            &&& receiver != INIT_PID
            &&& receiver != p.pid
            &&& permitted(m[receiver], p.euid)
        },
{
    lemma_reached_below(m, p, u16::MAX + 1);
}

} // verus!
