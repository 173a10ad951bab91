//! What happens to the current process when the processor raises an exception.

use vstd::prelude::*;

use crate::pid_list::Pid;
use crate::process::family::{after_exit, can_notify_parent, can_set_state};
use crate::process::regs::Regs;
use crate::process::state::State;
use crate::process::{Process, ProcessView};
use crate::scheduler::Scheduler;
use crate::signal::{Execution, Signal};

verus! {

/// The opcode of the `hlt` instruction.
pub const HLT_INSTRUCTION: u8 = 0xf4;

/// The ID of a page fault.
pub const PAGE_FAULT: u32 = 0x0e;

/// What is to be done at the end of an interrupt.
#[derive(Clone, Copy, Debug, PartialEq, Eq, Structural)]
pub enum InterruptResultAction {
    /// Go back to the interrupted code.
    Resume,
    /// Wait for the scheduler to run another process.
    Loop,
    /// Stop the kernel.
    Panic,
}

/// The result of handling an interrupt.
#[derive(Clone, Copy, Debug, PartialEq, Eq, Structural)]
pub struct InterruptResult {
    /// If true, the next handlers of the interrupt are not called.
    pub skip_next: bool,
    /// What is to be done at the end of the interrupt.
    pub action: InterruptResultAction,
}

impl InterruptResult {
    /// Creates a new result.
    pub fn new(skip_next: bool, action: InterruptResultAction) -> (res: Self)
        ensures
            res == (InterruptResult { skip_next, action }),
    {
        Self { skip_next, action }
    }
}

/// What an exception does to the process that raised it.
#[derive(Clone, Copy, Debug, PartialEq, Eq, Structural)]
pub enum Cause {
    /// The process is sent a signal.
    Kill(Signal),
    /// The process exits.
    Exit,
    /// Nothing.
    Nothing,
}

/// How far the handling of an interrupt has come.
#[derive(Clone, Copy, Debug, PartialEq, Eq, Structural)]
pub enum Stage {
    /// The handling begins.
    Begin,
    /// The process has received its signal.
    Killed,
    /// A pending signal of the process has been executed.
    SignalExecuted,
}

/// The next step of handling an interrupt.
#[derive(Clone, Copy, Debug, PartialEq, Eq, Structural)]
pub enum Step {
    /// The action of a signal is to be executed, before going on with the given
    /// stage.
    Execute(Execution, Stage),
    /// The handling is finished.
    Finish(InterruptResult),
}

/// What the exception `id` does to the process that raised it. `opcode` is the
/// first byte of the instruction at which it was raised.
pub open spec fn cause_of(id: u32, opcode: u8) -> Cause {
    if id == 0x00 || id == 0x10 || id == 0x13 {
        Cause::Kill(Signal::SIGFPE)
    } else if id == 0x03 {
        Cause::Kill(Signal::SIGTRAP)
    } else if id == 0x06 {
        Cause::Kill(Signal::SIGILL)
    } else if id == 0x0d {
        if opcode == HLT_INSTRUCTION {
            Cause::Exit
        } else {
            Cause::Kill(Signal::SIGSEGV)
        }
    } else if id == 0x11 {
        Cause::Kill(Signal::SIGBUS)
    } else {
        Cause::Nothing
    }
}

/// The handling that stops the kernel.
pub open spec fn panic_step() -> Step {
    Step::Finish(InterruptResult { skip_next: true, action: InterruptResultAction::Panic })
}

/// The end of the handling for the process `p`, which is resumed if it is still
/// running.
pub open spec fn finish_step(p: ProcessView) -> Step {
    if p.state == State::Running {
        Step::Finish(InterruptResult { skip_next: false, action: InterruptResultAction::Resume })
    } else {
        Step::Finish(InterruptResult { skip_next: true, action: InterruptResultAction::Loop })
    }
}

/// The next step for the process `p`, which has received its signal.
pub open spec fn killed_step(p: ProcessView) -> Step {
    match p.next_execution() {
        Some(execution) => Step::Execute(execution, Stage::SignalExecuted),
        None => finish_step(p),
    }
}

/// The next step for the process `p`, which is being sent the signal.
pub open spec fn kill_step(p: ProcessView, sig: Signal) -> Step {
    match p.execution(sig, true) {
        Some(execution) => Step::Execute(execution, Stage::Killed),
        None => killed_step(p.killed(sig, true)),
    }
}

/// Returns what the exception `id` does to the process that raised it.
pub fn get_cause(id: u32, opcode: u8) -> (res: Cause)
    ensures
        res == cause_of(id, opcode),
{
    match id {
        // Divide-by-zero
        // x87 Floating-Point Exception
        // SIMD Floating-Point Exception
        0x00 | 0x10 | 0x13 => Cause::Kill(Signal::SIGFPE),
        // Breakpoint
        0x03 => Cause::Kill(Signal::SIGTRAP),
        // Invalid Opcode
        0x06 => Cause::Kill(Signal::SIGILL),
        // General Protection Fault
        0x0d => if opcode == HLT_INSTRUCTION {
            Cause::Exit
        } else {
            Cause::Kill(Signal::SIGSEGV)
        },
        // Alignment Check
        0x11 => Cause::Kill(Signal::SIGBUS),
        _ => Cause::Nothing,
    }
}

/// Returns the end of the handling for the process.
fn finish(proc: &Process) -> (res: Step)
    ensures
        res == finish_step(proc@),
{
    if *proc.get_state() == State::Running {
        Step::Finish(InterruptResult::new(false, InterruptResultAction::Resume))
    } else {
        Step::Finish(InterruptResult::new(true, InterruptResultAction::Loop))
    }
}

/// Returns the next step for the process, which has received its signal.
fn after_kill(proc: &Process) -> (res: Step)
    requires
        proc.wf(),
    ensures
        res == killed_step(proc@),
{
    match proc.signal_next() {
        Some(execution) => Step::Execute(execution, Stage::SignalExecuted),
        None => finish(proc),
    }
}

/// Sends the signal to the process, and returns the next step.
fn kill_process(proc: &mut Process, sig: &Signal) -> (res: Step)
    requires
        old(proc).wf(),
        old(proc)@.counts(*sig),
    ensures
        final(proc).wf(),
        final(proc)@ == old(proc)@.killed(*sig, true),
        res == kill_step(old(proc)@, *sig),
{
    match proc.kill(sig, true) {
        Some(execution) => Step::Execute(execution, Stage::Killed),
        None => after_kill(proc),
    }
}

/// The exception can be handled for the process `p`. The other processes are
/// `others`.
pub open spec fn can_handle(
    cause: Cause,
    p: ProcessView,
    others: Map<Pid, ProcessView>,
) -> bool {
    match cause {
        Cause::Kill(sig) => p.counts(sig),
        Cause::Exit => {
            &&& can_set_state(others, p, State::Zombie)
            &&& can_notify_parent(others, p)
        },
        Cause::Nothing => true,
    }
}

/// The next step of handling an exception for the process `p`.
pub open spec fn exception_step(stage: Stage, cause: Cause, eax: u32, p: ProcessView) -> Step {
    match stage {
        Stage::Begin => match cause {
            Cause::Kill(sig) => kill_step(p, sig),
            Cause::Exit => finish_step(p.exited(eax, false)),
            Cause::Nothing => finish_step(p),
        },
        Stage::Killed => killed_step(p),
        Stage::SignalExecuted => finish_step(p),
    }
}

/// The process `p` after the step of handling an exception.
pub open spec fn after_exception(
    stage: Stage,
    cause: Cause,
    eax: u32,
    p: ProcessView,
) -> ProcessView {
    match (stage, cause) {
        (Stage::Begin, Cause::Kill(sig)) => p.killed(sig, true),
        (Stage::Begin, Cause::Exit) => p.exited(eax, false),
        _ => p,
    }
}

/// The processes other than `p` after the step of handling an exception.
pub open spec fn others_after_exception(
    stage: Stage,
    cause: Cause,
    p: ProcessView,
    others: Map<Pid, ProcessView>,
) -> Map<Pid, ProcessView> {
    match (stage, cause) {
        (Stage::Begin, Cause::Exit) => after_exit(others, p),
        _ => others,
    }
}

/// Returns the handling of an interrupt that cannot be blamed on a process.
fn panic() -> (res: Step)
    ensures
        res == panic_step(),
{
    Step::Finish(InterruptResult::new(true, InterruptResultAction::Panic))
}

/// The exception `id` can be handled for the current process.
pub open spec fn can_handle_exception(
    stage: Stage,
    id: u32,
    opcode: u8,
    ring: u32,
    sched: Scheduler,
) -> bool {
    stage == Stage::Begin && ring >= 3 && sched.has_current() ==> can_handle(
        cause_of(id, opcode),
        sched@[sched.current()->0],
        sched@.remove(sched.current()->0),
    )
}

/// What the step of handling the exception `id` does: `step` is the next one.
pub open spec fn exception_handled(
    stage: Stage,
    id: u32,
    opcode: u8,
    eax: u32,
    ring: u32,
    before: Scheduler,
    after: Scheduler,
    step: Step,
) -> bool {
    if ring < 3 || !before.has_current() {
        &&& step == panic_step()
        &&& after@ == before@
    } else {
        let current = before.current()->0;
        let p = before@[current];
        let others = before@.remove(current);
        let cause = cause_of(id, opcode);
        &&& step == exception_step(stage, cause, eax, p)
        &&& after@ == others_after_exception(stage, cause, p, others).insert(
            current,
            after_exception(stage, cause, eax, p),
        )
    }
}

/// Handles the exception `id`, raised with the registers `regs` at an
/// instruction whose first byte is `opcode`. `ring` is the privilege level at
/// which the exception was raised.
///
/// If the exception was raised by the kernel, or if there is no current process
/// to blame it on, the kernel stops.
pub fn handle_exception(
    stage: Stage,
    id: u32,
    opcode: u8,
    regs: &Regs,
    ring: u32,
    sched: &mut Scheduler,
) -> (res: Step)
    requires
        old(sched).wf(),
        can_handle_exception(stage, id, opcode, ring, *old(sched)),
    ensures
        final(sched).wf(),
        final(sched).current() == old(sched).current(),
        exception_handled(stage, id, opcode, regs.eax, ring, *old(sched), *final(sched), res),
{
    if ring < 3 {
        return panic();
    }
    let current: Pid = match sched.get_current_pid() {
        Some(pid) => pid,
        None => {
            return panic();
        },
    };
    let mut proc = match sched.take(current) {
        Some(proc) => proc,
        None => {
            assert(sched@ =~= old(sched)@);
            return panic();
        },
    };
    let step = match stage {
        Stage::Begin => match get_cause(id, opcode) {
            Cause::Kill(sig) => kill_process(&mut proc, &sig),
            Cause::Exit => {
                proc.exit(sched, regs.eax, false);
                finish(&proc)
            },
            Cause::Nothing => finish(&proc),
        },
        Stage::Killed => after_kill(&proc),
        Stage::SignalExecuted => finish(&proc),
    };
    sched.put(proc);
    step
}

/// The next step of handling a page fault for the process `p`.
pub open spec fn page_fault_step(stage: Stage, success: bool, ring: u32, p: ProcessView) -> Step {
    match stage {
        Stage::Begin => if success {
            finish_step(p)
        } else if ring < 3 {
            panic_step()
        } else {
            kill_step(p, Signal::SIGSEGV)
        },
        Stage::Killed => killed_step(p),
        Stage::SignalExecuted => finish_step(p),
    }
}

/// The page fault kills the current process.
pub open spec fn page_fault_kills(stage: Stage, success: bool, ring: u32) -> bool {
    stage == Stage::Begin && !success && ring >= 3
}

/// The page fault can be handled for the current process.
pub open spec fn can_handle_page_fault(
    stage: Stage,
    success: bool,
    ring: u32,
    sched: Scheduler,
) -> bool {
    page_fault_kills(stage, success, ring) && sched.has_current()
        ==> sched@[sched.current()->0].counts(Signal::SIGSEGV)
}

/// What the step of handling a page fault does: `step` is the next one.
pub open spec fn page_fault_handled(
    stage: Stage,
    success: bool,
    ring: u32,
    before: Scheduler,
    after: Scheduler,
    step: Step,
) -> bool {
    if !before.has_current() {
        &&& step == panic_step()
        &&& after@ == before@
    } else {
        let current = before.current()->0;
        let p = before@[current];
        &&& step == page_fault_step(stage, success, ring, p)
        &&& after@ == (if page_fault_kills(stage, success, ring) {
            before@.insert(current, p.killed(Signal::SIGSEGV, true))
        } else {
            before@
        })
    }
}

/// Handles a page fault. `success` tells whether the memory space of the
/// current process could handle the fault. `ring` is the privilege level at
/// which the fault was raised.
///
/// If there is no current process, or if the kernel raised a fault that could
/// not be handled, the kernel stops.
pub fn handle_page_fault(stage: Stage, success: bool, ring: u32, sched: &mut Scheduler) -> (res:
    Step)
    requires
        old(sched).wf(),
        can_handle_page_fault(stage, success, ring, *old(sched)),
    ensures
        final(sched).wf(),
        final(sched).current() == old(sched).current(),
        page_fault_handled(stage, success, ring, *old(sched), *final(sched), res),
{
    let current: Pid = match sched.get_current_pid() {
        Some(pid) => pid,
        None => {
            return panic();
        },
    };
    let mut proc = match sched.take(current) {
        Some(proc) => proc,
        None => {
            assert(sched@ =~= old(sched)@);
            return panic();
        },
    };
    let step = match stage {
        Stage::Begin => if success {
            finish(&proc)
        } else if ring < 3 {
            panic()
        } else {
            kill_process(&mut proc, &Signal::SIGSEGV)
        },
        Stage::Killed => after_kill(&proc),
        Stage::SignalExecuted => finish(&proc),
    };
    sched.put(proc);
    assert(!page_fault_kills(stage, success, ring) ==> sched@ =~= old(sched)@);
    assert(page_fault_kills(stage, success, ring) ==> sched@ =~= old(sched)@.insert(
        current,
        old(sched)@[current].killed(Signal::SIGSEGV, true),
    ));
    step
}

/// Returns the IDs of the exceptions that are handled for processes.
pub fn get_exceptions() -> (res: Vec<u32>)
    ensures
        res@ == seq![0x00u32, 0x03, 0x06, 0x0d, PAGE_FAULT, 0x10, 0x11, 0x13],
{
    let res: Vec<u32> = vec![0x00, 0x03, 0x06, 0x0d, PAGE_FAULT, 0x10, 0x11, 0x13];
    assert(res@ =~= seq![0x00u32, 0x03, 0x06, 0x0d, PAGE_FAULT, 0x10, 0x11, 0x13]);
    res
}

/// Handles the interrupt `id`: a page fault as `handle_page_fault` does, any
/// other as `handle_exception` does. Arguments are the same.
pub fn handle_interrupt(
    stage: Stage,
    id: u32,
    opcode: u8,
    success: bool,
    regs: &Regs,
    ring: u32,
    sched: &mut Scheduler,
) -> (res: Step)
    requires
        old(sched).wf(),
        if id == PAGE_FAULT {
            can_handle_page_fault(stage, success, ring, *old(sched))
        } else {
            can_handle_exception(stage, id, opcode, ring, *old(sched))
        },
    ensures
        final(sched).wf(),
        final(sched).current() == old(sched).current(),
        if id == PAGE_FAULT {
            page_fault_handled(stage, success, ring, *old(sched), *final(sched), res)
        } else {
            exception_handled(stage, id, opcode, regs.eax, ring, *old(sched), *final(sched), res)
        },
{
    if id == PAGE_FAULT {
        handle_page_fault(stage, success, ring, sched)
    } else {
        handle_exception(stage, id, opcode, regs, ring, sched)
    }
}

} // verus!
