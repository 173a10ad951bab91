//! What sending, choosing and handling signals does, field by field.

use vstd::prelude::*;

use crate::laws::lemma_first_deliverable;
use crate::pid_list::Pid;
use crate::process::regs::Regs;
use crate::process::signals::{executions, signaled};
use crate::process::state::State;
use crate::process::ProcessView;
use crate::signal::{
    added, default_handlers, with_handler, with_users, Execution, HandlerTableView, HandlerTables,
    Signal, SignalAction, SignalHandler, SIGNALS_COUNT,
};

verus! {

/// Each signal has the number that user space knows it by.
pub proof fn law_signal_numbers()
    ensures
        Signal::SIGHUP.id() == 1 && Signal::SIGINT.id() == 2 && Signal::SIGQUIT.id() == 3,
        Signal::SIGILL.id() == 4 && Signal::SIGTRAP.id() == 5 && Signal::SIGABRT.id() == 6,
        Signal::SIGBUS.id() == 7 && Signal::SIGFPE.id() == 8 && Signal::SIGKILL.id() == 9,
        Signal::SIGUSR1.id() == 10 && Signal::SIGSEGV.id() == 11 && Signal::SIGUSR2.id() == 12,
        Signal::SIGPIPE.id() == 13 && Signal::SIGALRM.id() == 14 && Signal::SIGTERM.id() == 15,
        Signal::SIGCHLD.id() == 17 && Signal::SIGCONT.id() == 18 && Signal::SIGSTOP.id() == 19,
        Signal::SIGTSTP.id() == 20 && Signal::SIGTTIN.id() == 21 && Signal::SIGTTOU.id() == 22,
        Signal::SIGURG.id() == 23 && Signal::SIGXCPU.id() == 24 && Signal::SIGXFSZ.id() == 25,
        Signal::SIGVTALRM.id() == 26 && Signal::SIGPROF.id() == 27 && Signal::SIGWINCH.id() == 28,
        Signal::SIGPOLL.id() == 29 && Signal::SIGSYS.id() == 31,
{
}

/// Signals and their numbers determine each other: a number finds the signal
/// that has it, and no signal if none has it.
pub proof fn law_numbers_identify_signals(sig: Signal, other: Signal, n: int)
    ensures
        0 < sig.id() < SIGNALS_COUNT,
        Signal::of_id(n) == Some(sig) <==> sig.id() == n,
        Signal::of_id(n) is None <==> (forall|s: Signal| #[trigger] s.id() != n),
        sig.id() == other.id() ==> sig == other,
{
    sig.lemma_id();
    other.lemma_id();
    if Signal::of_id(n) is Some {
        let found = Signal::of_id(n)->0;
        assert(found.id() == n);
        found.lemma_id();
    }
}

/// A process can block and handle every signal but `SIGKILL` and `SIGSTOP`. The
/// default action of `SIGCONT`, and of no other signal, is to resume.
pub proof fn law_signal_actions(sig: Signal)
    ensures
        sig.catchable() <==> sig != Signal::SIGKILL && sig != Signal::SIGSTOP,
        sig.default_action() == SignalAction::Continue <==> sig == Signal::SIGCONT,
        sig.default_action() == SignalAction::Ignore <==> sig == Signal::SIGCHLD || sig
            == Signal::SIGURG || sig == Signal::SIGWINCH,
        sig.default_action() == SignalAction::Stop <==> sig == Signal::SIGSTOP || sig
            == Signal::SIGTSTP || sig == Signal::SIGTTIN || sig == Signal::SIGTTOU,
        sig.default_action() == SignalAction::Abort <==> sig == Signal::SIGQUIT || sig
            == Signal::SIGILL || sig == Signal::SIGTRAP || sig == Signal::SIGABRT || sig
            == Signal::SIGBUS || sig == Signal::SIGFPE || sig == Signal::SIGSEGV || sig
            == Signal::SIGXCPU || sig == Signal::SIGXFSZ || sig == Signal::SIGSYS,
{
}

/// What a signal does to the process it is sent to. One that the process blocks,
/// and may block, does nothing. Any other is counted, and resumes a stopped
/// process if it is `SIGCONT`. Its action is executed at once if it cannot be
/// blocked, or if the sender asks for it while the process handles a signal; it
/// becomes pending otherwise. Nothing else changes.
pub proof fn law_kill_effect(p: ProcessView, sig: Signal, no_handler: bool)
    requires
        p.wf(),
        p.rusage.ru_nsignals < i64::MAX,
    ensures
        ({
            let q = p.killed(sig, no_handler);
            let forced = sig == Signal::SIGKILL || sig == Signal::SIGSTOP;
            let asked = no_handler && p.handled_signal is Some;
            if !forced && p.sigmask[sig.id() as int] {
                &&& q == p
                &&& p.execution(sig, no_handler) is None
            } else {
                &&& q.rusage.ru_nsignals == p.rusage.ru_nsignals + 1
                &&& q.state == (if p.state == State::Stopped && sig == Signal::SIGCONT {
                    State::Running
                } else {
                    p.state
                })
                &&& p.execution(sig, no_handler) is Some <==> forced || asked
                &&& p.execution(sig, no_handler) matches Some(e) ==> {
                    &&& e.pid == p.pid
                    &&& e.sig == sig
                    &&& e.no_handler == asked
                }
                &&& q.sigpending.len() == p.sigpending.len()
                &&& q.sigpending[sig.id() as int] == (p.sigpending[sig.id() as int] || !(forced
                    || asked))
                &&& forall|i: int|
                    0 <= i < SIGNALS_COUNT && i != sig.id() ==> #[trigger] q.sigpending[i]
                        == p.sigpending[i]
                &&& q == (ProcessView {
                    rusage: q.rusage,
                    state: q.state,
                    sigpending: q.sigpending,
                    ..p
                })
            }
        }),
{
    sig.lemma_id();
}

/// A signal can be sent as long as it can be counted, if it has to be.
pub proof fn law_signals_can_be_counted(p: ProcessView, sig: Signal)
    ensures
        p.counts(sig) <==> p.rusage.ru_nsignals < i64::MAX || (sig != Signal::SIGKILL && sig
            != Signal::SIGSTOP && p.sigmask[sig.id() as int]),
{
}

/// A signal is the next one to be handled exactly if the process handles none,
/// the signal is pending and not blocked, and no signal with a lower number is
/// so. Only `SIGKILL` and `SIGSTOP` cannot be blocked.
pub proof fn law_next_signal_choice(p: ProcessView, sig: Signal)
    requires
        p.wf(),
    ensures
        p.next_signal() == Some(sig) <==> {
            &&& p.handled_signal is None
            &&& p.sigpending[sig.id() as int]
            &&& sig == Signal::SIGKILL || sig == Signal::SIGSTOP || !p.sigmask[sig.id() as int]
            &&& forall|other: Signal|
                #![trigger other.id()]
                other.id() < sig.id() && p.sigpending[other.id() as int] ==> other
                    != Signal::SIGKILL && other != Signal::SIGSTOP && p.sigmask[other.id() as int]
        },
        p.next_signal() is None <==> p.handled_signal is Some || (forall|other: Signal|
            #![trigger other.id()]
            p.sigpending[other.id() as int] ==> other != Signal::SIGKILL && other
                != Signal::SIGSTOP && p.sigmask[other.id() as int]),
{
    sig.lemma_id();
    lemma_first_deliverable(p, 0);
    assert forall|s: Signal| #![trigger s.id()] p.deliverable(s.id() as int) <==> (
    p.sigpending[s.id() as int] && (s == Signal::SIGKILL || s == Signal::SIGSTOP
        || !p.sigmask[s.id() as int])) by {
        s.lemma_id();
    }
    if p.first_deliverable(0) is Some {
        let first = p.first_deliverable(0)->0;
        first.lemma_id();
        assert(p.deliverable(first.id() as int));
        if sig.id() < first.id() {
            assert(!p.deliverable(sig.id() as int));
        }
    } else {
        assert(!p.deliverable(sig.id() as int));
        assert forall|s: Signal| #![trigger s.id()] !p.deliverable(s.id() as int) by {
            s.lemma_id();
        }
    }
    if p.next_signal() == Some(sig) {
        assert forall|other: Signal|
            #![trigger other.id()]
            other.id() < sig.id() && p.sigpending[other.id() as int] implies other
            != Signal::SIGKILL && other != Signal::SIGSTOP && p.sigmask[other.id() as int] by {
            assert(!p.deliverable(other.id() as int));
        }
    }
}

/// The next signal is executed for the process itself, with its handler.
pub proof fn law_next_execution(p: ProcessView)
    ensures
        p.next_execution() is Some <==> p.next_signal() is Some,
        p.next_execution() matches Some(e) ==> {
            &&& p.next_signal() == Some(e.sig)
            &&& e.pid == p.pid
            &&& !e.no_handler
        },
{
}

/// Clearing a signal takes that signal from the pending ones, and changes
/// nothing else.
pub proof fn law_clear_effect(p: ProcessView, sig: Signal)
    requires
        p.wf(),
    ensures
        ({
            let q = p.cleared(sig);
            &&& q.sigpending.len() == p.sigpending.len()
            &&& !q.sigpending[sig.id() as int]
            &&& forall|i: int|
                0 <= i < SIGNALS_COUNT && i != sig.id() ==> #[trigger] q.sigpending[i]
                    == p.sigpending[i]
            &&& q == (ProcessView { sigpending: q.sigpending, ..p })
        }),
{
    sig.lemma_id();
}

/// A process whose state is saved for a signal handles that signal and keeps its
/// registers aside. The restored process handles none and has the registers
/// that were kept aside; one that handles no signal is left as it is.
pub proof fn law_save_and_restore_effects(p: ProcessView, sig: Signal, handled: Signal, kept: Regs)
    ensures
        p.saved(sig).handled_signal == Some(sig),
        p.saved(sig).saved_regs == p.regs,
        p.saved(sig) == (ProcessView {
            handled_signal: p.saved(sig).handled_signal,
            saved_regs: p.saved(sig).saved_regs,
            ..p
        }),
        p.handled_signal is None ==> p.restored() == p,
        p.handled_signal == Some(handled) && p.saved_regs == kept ==> p.restored() == (
        ProcessView { handled_signal: None, regs: kept, ..p }),
{
}

/// A signal sent to a list of processes reaches those on the list that exist,
/// and leaves the others as they are.
pub proof fn law_signals_reach_the_listed(
    m: Map<Pid, ProcessView>,
    list: Seq<Pid>,
    sig: Signal,
    no_handler: bool,
    pid: Pid,
)
    ensures
        signaled(m, list, sig, no_handler).contains_key(pid) <==> m.contains_key(pid),
        m.contains_key(pid) && list.contains(pid) ==> signaled(m, list, sig, no_handler)[pid]
            == m[pid].killed(sig, no_handler),
        m.contains_key(pid) && !list.contains(pid) ==> signaled(m, list, sig, no_handler)[pid]
            == m[pid],
{
}

/// The executions come in the order of the list, one for each process that
/// exists and executes the signal at once: those of a list put together of two
/// are those of the first, then those of the second.
pub proof fn law_executions_follow_the_list(
    m: Map<Pid, ProcessView>,
    first: Seq<Pid>,
    second: Seq<Pid>,
    sig: Signal,
    no_handler: bool,
    pid: Pid,
)
    ensures
        executions(m, Seq::empty(), sig, no_handler) == Seq::<Execution>::empty(),
        !m.contains_key(pid) ==> executions(m, seq![pid], sig, no_handler) == Seq::<
            Execution,
        >::empty(),
        m.contains_key(pid) ==> executions(m, seq![pid], sig, no_handler) == (
        match m[pid].execution(sig, no_handler) {
            Some(e) => seq![e],
            None => Seq::empty(),
        }),
        executions(m, first + second, sig, no_handler) == executions(m, first, sig, no_handler)
            + executions(m, second, sig, no_handler),
    decreases second.len(),
{
    let one = seq![pid];
    assert(one.drop_last() =~= Seq::empty());
    assert(executions(m, one.drop_last(), sig, no_handler) =~= Seq::empty());
    assert(executions(m, one, sig, no_handler) =~= (if m.contains_key(pid) {
        match m[pid].execution(sig, no_handler) {
            Some(e) => seq![e],
            None => Seq::empty(),
        }
    } else {
        Seq::empty()
    }));
    if second.len() == 0 {
        assert(first + second =~= first);
    } else {
        law_executions_follow_the_list(m, first, second.drop_last(), sig, no_handler, pid);
        assert((first + second).drop_last() =~= first + second.drop_last());
        assert((first + second).last() == second.last());
    }
    assert(executions(m, first + second, sig, no_handler) =~= executions(m, first, sig, no_handler)
        + executions(m, second, sig, no_handler));
}

/// Setting a handler changes that handler of that table, and nothing else.
pub proof fn law_set_handler_effect(
    tables: Seq<HandlerTableView>,
    table: int,
    sig: Signal,
    handler: SignalHandler,
    i: int,
    other: int,
)
    requires
        0 <= table < tables.len(),
        tables[table].handlers.len() == SIGNALS_COUNT,
    ensures
        ({
            let after = with_handler(tables, table, sig, handler);
            &&& after.len() == tables.len()
            &&& after[table].handlers.len() == SIGNALS_COUNT
            &&& after[table].handlers[sig.id() as int] == handler
            &&& 0 <= i < SIGNALS_COUNT && i != sig.id() ==> after[table].handlers[i]
                == tables[table].handlers[i]
            &&& after[table].users == tables[table].users
            &&& 0 <= other < tables.len() && other != table ==> after[other] == tables[other]
        }),
{
    sig.lemma_id();
}

/// A new table takes the place of one that nobody uses, or comes after all
/// tables if there is none. Every other table stays as it is.
pub proof fn law_new_table(
    before: Seq<HandlerTableView>,
    after: Seq<HandlerTableView>,
    i: int,
    handlers: Seq<SignalHandler>,
    other: int,
)
    requires
        added(before, after, i, handlers),
    ensures
        0 <= i < after.len(),
        after[i].handlers == handlers,
        after[i].users == 1,
        i < before.len() ==> before[i].users == 0 && after.len() == before.len(),
        i >= before.len() ==> i == before.len() && after.len() == before.len() + 1,
        0 <= other < before.len() && other != i ==> after[other] == before[other],
        0 <= other < i ==> before[other].users > 0,
{
}

/// Counting the users of a table changes that count alone. The handlers of a
/// process that has set none are all the default ones.
pub proof fn law_table_users(
    tables: Seq<HandlerTableView>,
    table: int,
    users: nat,
    other: int,
    sig: Signal,
)
    requires
        0 <= table < tables.len(),
    ensures
        with_users(tables, table, users).len() == tables.len(),
        with_users(tables, table, users)[table].users == users,
        with_users(tables, table, users)[table].handlers == tables[table].handlers,
        0 <= other < tables.len() && other != table ==> with_users(tables, table, users)[other]
            == tables[other],
        default_handlers().len() == SIGNALS_COUNT,
        default_handlers()[sig.id() as int] == SignalHandler::Default,
{
    sig.lemma_id();
}

/// A table is in use exactly if there is one with that index that some process
/// uses.
pub proof fn law_tables_in_use(tables: HandlerTables, table: usize)
    ensures
        tables.in_use(table) <==> table < tables@.len() && tables@[table as int].users > 0,
{
}

} // verus!
