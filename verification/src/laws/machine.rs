//! What exceptions and context switches do, in terms of what raised them.

use vstd::prelude::*;

use crate::gdt::{KERNEL_DS, TLS_OFFSET, USER_DS};
use crate::interrupt::{
    can_handle_exception, can_handle_page_fault, cause_of, exception_handled, page_fault_handled,
    Cause, InterruptResultAction, Stage, Step,
};
use crate::pid_list::Pid;
use crate::process::family::{after_exit, can_notify_parent, can_set_state};
use crate::process::state::State;
use crate::process::switch::{DummyMemory, SwitchStage};
use crate::process::ProcessView;
use crate::scheduler::Scheduler;
use crate::signal::Signal;

verus! {

/// An exception ends the process exactly if it is a general protection fault
/// raised at a `hlt` instruction. At any other instruction it is a memory
/// violation.
pub proof fn law_halt_exits(id: u32, opcode: u8)
    ensures
        cause_of(id, opcode) == Cause::Exit <==> id == 0x0d && opcode == 0xf4,
        opcode != 0xf4 ==> cause_of(0x0d, opcode) == Cause::Kill(Signal::SIGSEGV),
{
}

/// Which exceptions send which signal: arithmetic errors, breakpoints, invalid
/// instructions, protection faults and misaligned accesses. No other exception
/// sends one, and the first byte of the instruction matters for protection
/// faults alone.
pub proof fn law_exception_signals(id: u32, opcode: u8, other: u8)
    ensures
        cause_of(id, opcode) == Cause::Kill(Signal::SIGFPE) <==> id == 0x00 || id == 0x10 || id
            == 0x13,
        cause_of(id, opcode) == Cause::Kill(Signal::SIGTRAP) <==> id == 0x03,
        cause_of(id, opcode) == Cause::Kill(Signal::SIGILL) <==> id == 0x06,
        cause_of(id, opcode) == Cause::Kill(Signal::SIGSEGV) <==> id == 0x0d && opcode != 0xf4,
        cause_of(id, opcode) == Cause::Kill(Signal::SIGBUS) <==> id == 0x11,
        cause_of(id, opcode) == Cause::Nothing <==> id != 0x00 && id != 0x03 && id != 0x06 && id
            != 0x0d && id != 0x10 && id != 0x11 && id != 0x13,
        id != 0x0d ==> cause_of(id, opcode) == cause_of(id, other),
{
}

/// The kernel stops.
pub open spec fn stops(step: Step) -> bool {
    &&& step matches Step::Finish(result)
    &&& result.skip_next
    &&& result.action == InterruptResultAction::Panic
}

/// The handling is finished: the process `p` is resumed if it is running, and
/// another one is waited for if it is not.
pub open spec fn finishes(p: ProcessView, step: Step) -> bool {
    &&& step matches Step::Finish(result)
    &&& p.state == State::Running ==> !result.skip_next && result.action
        == InterruptResultAction::Resume
    &&& p.state != State::Running ==> result.skip_next && result.action
        == InterruptResultAction::Loop
}

/// The process `p` executes its next signal, if it has one, and the handling
/// goes on after that. Otherwise it is finished.
pub open spec fn goes_on(p: ProcessView, step: Step) -> bool {
    &&& p.next_execution() is Some ==> step == Step::Execute(
        p.next_execution()->0,
        Stage::SignalExecuted,
    )
    &&& p.next_execution() is None ==> finishes(p, step)
}

/// The current process was sent the signal, and no other process changed. An
/// execution that results is carried out first.
pub open spec fn signals_current(
    before: Map<Pid, ProcessView>,
    after: Map<Pid, ProcessView>,
    current: Pid,
    sig: Signal,
    step: Step,
) -> bool {
    let p = before[current];
    &&& after == before.insert(current, p.killed(sig, true))
    &&& p.execution(sig, true) is Some ==> step == Step::Execute(
        p.execution(sig, true)->0,
        Stage::Killed,
    )
    &&& p.execution(sig, true) is None ==> goes_on(p.killed(sig, true), step)
}

/// What an exception does. If the kernel raised it, or if there is no current
/// process, the kernel stops. Otherwise the current process is sent the signal
/// of the exception, or exits with the value of `eax` if it executed `hlt`, and
/// then handles its next signal. It is resumed in the end if it is running.
pub proof fn law_exception_handling(
    stage: Stage,
    id: u32,
    opcode: u8,
    eax: u32,
    ring: u32,
    before: Scheduler,
    after: Scheduler,
    step: Step,
    current: Pid,
)
    requires
        exception_handled(stage, id, opcode, eax, ring, before, after, step),
    ensures
        ring < 3 || before.current() is None ==> stops(step) && after@ == before@,
        before.current() == Some(current) && !before@.contains_key(current) ==> stops(step)
            && after@ == before@,
        ring >= 3 && before.current() == Some(current) && before@.contains_key(current) ==> {
            let p = before@[current];
            &&& stage == Stage::Begin ==> {
                &&& id == 0x00 || id == 0x10 || id == 0x13 ==> signals_current(
                    before@,
                    after@,
                    current,
                    Signal::SIGFPE,
                    step,
                )
                &&& id == 0x03 ==> signals_current(before@, after@, current, Signal::SIGTRAP, step)
                &&& id == 0x06 ==> signals_current(before@, after@, current, Signal::SIGILL, step)
                &&& id == 0x0d && opcode != 0xf4 ==> signals_current(
                    before@,
                    after@,
                    current,
                    Signal::SIGSEGV,
                    step,
                )
                &&& id == 0x11 ==> signals_current(before@, after@, current, Signal::SIGBUS, step)
                &&& id == 0x0d && opcode == 0xf4 ==> {
                    &&& after@ == after_exit(before@.remove(current), p).insert(
                        current,
                        p.exited(eax, false),
                    )
                    &&& finishes(p.exited(eax, false), step)
                }
                &&& id != 0x00 && id != 0x03 && id != 0x06 && id != 0x0d && id != 0x10 && id
                    != 0x11 && id != 0x13 ==> after@ == before@ && finishes(p, step)
            }
            &&& stage == Stage::Killed ==> after@ == before@ && goes_on(p, step)
            &&& stage == Stage::SignalExecuted ==> after@ == before@ && finishes(p, step)
        },
{
    if ring >= 3 && before.current() == Some(current) && before@.contains_key(current) {
        let p = before@[current];
        assert(before@.remove(current).insert(current, p) =~= before@);
        assert forall|sig: Signal|
            before@.remove(current).insert(current, #[trigger] p.killed(sig, true))
                =~= before@.insert(current, p.killed(sig, true)) by {}
    }
}

/// What a page fault does. Without a current process the kernel stops. A fault
/// that could be handled changes nothing. One that could not stops the kernel if
/// the kernel raised it, and is a memory violation of the current process
/// otherwise.
pub proof fn law_page_fault_handling(
    stage: Stage,
    success: bool,
    ring: u32,
    before: Scheduler,
    after: Scheduler,
    step: Step,
    current: Pid,
)
    requires
        page_fault_handled(stage, success, ring, before, after, step),
    ensures
        before.current() is None ==> stops(step) && after@ == before@,
        before.current() == Some(current) && !before@.contains_key(current) ==> stops(step)
            && after@ == before@,
        before.current() == Some(current) && before@.contains_key(current) ==> {
            let p = before@[current];
            &&& stage == Stage::Begin && success ==> after@ == before@ && finishes(p, step)
            &&& stage == Stage::Begin && !success && ring < 3 ==> after@ == before@ && stops(step)
            &&& stage == Stage::Begin && !success && ring >= 3 ==> signals_current(
                before@,
                after@,
                current,
                Signal::SIGSEGV,
                step,
            )
            &&& stage == Stage::Killed ==> after@ == before@ && goes_on(p, step)
            &&& stage == Stage::SignalExecuted ==> after@ == before@ && finishes(p, step)
        },
{
}

/// Exceptions can be handled whenever the current process can count its signal,
/// or can exit if it executed `hlt`.
pub proof fn law_exceptions_can_be_handled(
    stage: Stage,
    id: u32,
    opcode: u8,
    success: bool,
    ring: u32,
    sched: Scheduler,
    current: Pid,
)
    requires
        sched.current() is Some ==> sched.current() == Some(current),
        sched@.contains_key(current) ==> sched@[current].rusage.ru_nsignals < i64::MAX,
    ensures
        can_handle_page_fault(stage, success, ring, sched),
        id != 0x0d || opcode != 0xf4 ==> can_handle_exception(stage, id, opcode, ring, sched),
        stage != Stage::Begin || ring < 3 || sched.current() is None ==> can_handle_exception(
            stage,
            id,
            opcode,
            ring,
            sched,
        ),
        can_set_state(sched@.remove(current), sched@[current], State::Zombie) && can_notify_parent(
            sched@.remove(current),
            sched@[current],
        ) ==> can_handle_exception(stage, id, opcode, ring, sched),
{
}

/// The processor finds the kernel's stack segment, the user's, and the kernel
/// stack of the process: its top, or its middle while the process handles a
/// signal, 32 pages below.
pub proof fn law_tss(p: ProcessView, stack: u32)
    requires
        p.kernel_stack == Some(stack),
    ensures
        p.tss().ss0 == KERNEL_DS,
        p.tss().ss == USER_DS,
        p.handled_signal is None ==> p.has_kernel_stack() && p.tss().esp0 == stack,
        p.handled_signal is Some ==> (p.has_kernel_stack() <==> stack >= 32 * 4096),
        p.handled_signal is Some && stack >= 32 * 4096 ==> p.tss().esp0 == stack - 32 * 4096,
{
}

/// The TLS entries of a process follow one another in the GDT, eight bytes each.
pub proof fn law_tls(p: ProcessView, n: int)
    requires
        0 <= n < 3,
    ensures
        p.tls(n).offset == TLS_OFFSET + 8 * n,
        p.tls(n).entry == p.tls_entries[n],
{
}

/// Before a process is run, its next signal is executed, unless the process is in
/// a system call or a signal has been executed already. It is run only if it is
/// running and there is no such signal.
pub proof fn law_switch(p: ProcessView, stage: SwitchStage)
    ensures
        p.syscalling || stage == SwitchStage::SignalExecuted ==> p.signal_before_switch(
            stage,
        ) is None,
        !p.syscalling && stage == SwitchStage::Begin ==> p.signal_before_switch(stage)
            == p.next_execution(),
        p.runs(stage) <==> p.state == State::Running && (p.syscalling || stage
            == SwitchStage::SignalExecuted || p.next_execution() is None),
{
}

/// The memory of a process without a program fails with the error of its first
/// part that could not be had, and succeeds if there is none.
pub proof fn law_dummy_memory(memory: DummyMemory)
    ensures
        memory.error() is None <==> memory.mem_space is Ok && memory.kernel_stack is Ok
            && memory.user_stack is Ok,
        memory.mem_space matches Err(e) ==> memory.error() == Some(e),
        memory.mem_space is Ok ==> (memory.kernel_stack matches Err(e) ==> memory.error() == Some(
            e,
        )),
        memory.mem_space is Ok && memory.kernel_stack is Ok ==> (memory.user_stack matches Err(e)
            ==> memory.error() == Some(e)),
{
}

} // verus!
