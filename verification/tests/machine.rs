use kernel::bitfield::Bitfield;
use kernel::errno::EINVAL;
use kernel::file::proc_dir::{FileContent, KernFS, ProcDir};
use kernel::interrupt::{
    get_cause, get_exceptions, handle_exception, handle_interrupt, handle_page_fault, Cause,
    InterruptResult, InterruptResultAction, Stage, Step, HLT_INSTRUCTION, PAGE_FAULT,
};
use kernel::path::Path;
use kernel::pid_list::INIT_PID;
use kernel::process::fork::{ForkOptions, ForkResources};
use kernel::process::regs::Regs;
use kernel::process::state::State;
use kernel::process::switch::{
    DummyMemory, GdtUpdate, SwitchStage, SwitchStep, TssUpdate, HALF_KERNEL_STACK,
};
use kernel::process::Process;
use kernel::scheduler::Scheduler;
use kernel::signal::{Execution, HandlerTables, Signal};

/// Creates a system in which the process 2 is the current one.
fn running() -> Scheduler {
    let mut sched = Scheduler::new();
    let mut tables = HandlerTables::new();
    Process::new(&mut sched, &mut tables, 0, Ok(0)).unwrap();
    let mut init = sched.take(INIT_PID).unwrap();
    init.set_mem_space(Some(1));
    let resources = ForkResources {
        pid: Ok(2),
        kernel_stack: Ok(0x100000),
        mem_space: Ok(2),
        file_descriptors: Ok(2),
        procfs: Ok(()),
    };
    let options = ForkOptions { share_memory: true, ..ForkOptions::default() };
    init.fork(&mut sched, &mut tables, INIT_PID, options, resources).unwrap();
    sched.put(init);
    sched.set_current_pid(Some(2));
    sched
}

const PANIC: Step =
    Step::Finish(InterruptResult { skip_next: true, action: InterruptResultAction::Panic });
const RESUME: Step =
    Step::Finish(InterruptResult { skip_next: false, action: InterruptResultAction::Resume });
const LOOP: Step =
    Step::Finish(InterruptResult { skip_next: true, action: InterruptResultAction::Loop });

fn execution(sig: Signal, no_handler: bool) -> Execution {
    Execution { pid: 2, sig, no_handler }
}

#[test]
fn causes_of_exceptions() {
    assert_eq!(get_cause(0x00, 0), Cause::Kill(Signal::SIGFPE));
    assert_eq!(get_cause(0x10, 0), Cause::Kill(Signal::SIGFPE));
    assert_eq!(get_cause(0x13, 0), Cause::Kill(Signal::SIGFPE));
    assert_eq!(get_cause(0x03, 0), Cause::Kill(Signal::SIGTRAP));
    assert_eq!(get_cause(0x06, 0), Cause::Kill(Signal::SIGILL));
    assert_eq!(get_cause(0x0d, 0), Cause::Kill(Signal::SIGSEGV));
    assert_eq!(get_cause(0x0d, HLT_INSTRUCTION), Cause::Exit);
    assert_eq!(get_cause(0x11, 0), Cause::Kill(Signal::SIGBUS));
    assert_eq!(get_cause(0x20, 0), Cause::Nothing);
}

#[test]
fn exception_sends_signal_then_handles_it() {
    let mut sched = running();
    let regs = Regs::default();
    let step = handle_exception(Stage::Begin, 0x06, 0, &regs, 3, &mut sched);
    assert_eq!(step, Step::Execute(execution(Signal::SIGILL, false), Stage::SignalExecuted));
    let step = handle_exception(Stage::SignalExecuted, 0x06, 0, &regs, 3, &mut sched);
    assert_eq!(step, RESUME);
}

#[test]
fn exception_in_handler_executes_default_action() {
    let mut sched = running();
    let mut proc = sched.take(2).unwrap();
    proc.signal_save(Signal::SIGUSR1);
    sched.put(proc);
    let regs = Regs::default();
    let step = handle_exception(Stage::Begin, 0x00, 0, &regs, 3, &mut sched);
    assert_eq!(step, Step::Execute(execution(Signal::SIGFPE, true), Stage::Killed));
    assert_eq!(handle_exception(Stage::Killed, 0x00, 0, &regs, 3, &mut sched), RESUME);
}

#[test]
fn exception_without_process_panics() {
    let mut sched = running();
    let regs = Regs::default();
    assert_eq!(handle_exception(Stage::Begin, 0x06, 0, &regs, 0, &mut sched), PANIC);
    sched.set_current_pid(None);
    assert_eq!(handle_exception(Stage::Begin, 0x06, 0, &regs, 3, &mut sched), PANIC);
    sched.set_current_pid(Some(9));
    assert_eq!(handle_exception(Stage::Begin, 0x06, 0, &regs, 3, &mut sched), PANIC);
    assert_eq!(handle_page_fault(Stage::Begin, true, 3, &mut sched), PANIC);
    assert!(!sched.get_by_pid(2).unwrap().has_signal_pending());
}

#[test]
fn halt_instruction_exits() {
    let mut sched = running();
    let regs = Regs { eax: 0x17, ..Regs::default() };
    let step = handle_exception(Stage::Begin, 0x0d, HLT_INSTRUCTION, &regs, 3, &mut sched);
    assert_eq!(step, LOOP);
    assert_eq!(sched.get_by_pid(2).unwrap().get_exit_status(), Some(0x17));
    assert_eq!(sched.get_by_pid(1).unwrap().get_next_signal(), Some(Signal::SIGCHLD));
}

#[test]
fn unknown_exception_resumes() {
    let mut sched = running();
    let regs = Regs::default();
    assert_eq!(handle_exception(Stage::Begin, 0x20, 0, &regs, 3, &mut sched), RESUME);
}

#[test]
fn page_faults() {
    let mut sched = running();
    assert_eq!(handle_page_fault(Stage::Begin, true, 3, &mut sched), RESUME);
    assert_eq!(handle_page_fault(Stage::Begin, true, 0, &mut sched), RESUME);
    assert_eq!(handle_page_fault(Stage::Begin, false, 0, &mut sched), PANIC);
    let step = handle_page_fault(Stage::Begin, false, 3, &mut sched);
    assert_eq!(step, Step::Execute(execution(Signal::SIGSEGV, false), Stage::SignalExecuted));
    let mut proc = sched.take(2).unwrap();
    proc.set_state(&mut sched, State::Stopped);
    sched.put(proc);
    assert_eq!(handle_page_fault(Stage::SignalExecuted, false, 3, &mut sched), LOOP);
}

#[test]
fn interrupts_go_to_their_handlers() {
    let regs = Regs::default();
    let ids = get_exceptions();
    assert_eq!(ids, vec![0x00, 0x03, 0x06, 0x0d, 0x0e, 0x10, 0x11, 0x13]);
    for id in ids {
        let mut sched = running();
        let step = handle_interrupt(Stage::Begin, id, 0, false, &regs, 3, &mut sched);
        let sig = match get_cause(id, 0) {
            Cause::Kill(sig) => sig,
            _ => {
                assert_eq!(id, PAGE_FAULT);
                Signal::SIGSEGV
            }
        };
        assert_eq!(step, Step::Execute(execution(sig, false), Stage::SignalExecuted));
    }
    let mut sched = running();
    let step = handle_interrupt(Stage::Begin, PAGE_FAULT, 0, true, &regs, 0, &mut sched);
    assert_eq!(step, RESUME);
    let step = handle_interrupt(Stage::Begin, 0x03, 0, true, &regs, 0, &mut sched);
    assert_eq!(step, PANIC);
}

#[test]
fn switch_to_running_process() {
    let mut sched = running();
    let mut proc = sched.take(2).unwrap();
    proc.get_tls_entries()[2] = 5;
    match proc.prepare_switch(SwitchStage::Begin) {
        SwitchStep::Run(switch) => {
            assert_eq!(switch.tss, TssUpdate { ss0: 16, ss: 32, esp0: 0x100000 });
            assert_eq!(switch.mem_space, 1);
            let expected = vec![
                GdtUpdate { offset: 48, entry: 0 },
                GdtUpdate { offset: 56, entry: 0 },
                GdtUpdate { offset: 64, entry: 5 },
            ];
            assert_eq!(switch.tls, expected);
        }
        step => panic!("{:?}", step),
    }
    assert_eq!(proc.get_quantum_count(), 1);
}

#[test]
fn switch_executes_signal_first() {
    let mut sched = running();
    let mut proc = sched.take(2).unwrap();
    proc.kill(&Signal::SIGINT, false);
    let step = proc.prepare_switch(SwitchStage::Begin);
    assert!(matches!(step, SwitchStep::Execute(e) if e == execution(Signal::SIGINT, false)));
    assert_eq!(proc.get_quantum_count(), 0);
    let step = proc.prepare_switch(SwitchStage::SignalExecuted);
    assert!(matches!(step, SwitchStep::Run(_)));
    proc.set_syscalling(true);
    assert!(matches!(proc.prepare_switch(SwitchStage::Begin), SwitchStep::Run(_)));
    proc.set_state(&mut sched, State::Stopped);
    assert!(matches!(proc.prepare_switch(SwitchStage::SignalExecuted), SwitchStep::Cancel));
    assert!(matches!(proc.prepare_switch(SwitchStage::Begin), SwitchStep::Cancel));
    assert_eq!(proc.get_quantum_count(), 2);
}

#[test]
fn signal_handler_gets_lower_half_of_stack() {
    let mut sched = running();
    let mut proc = sched.take(2).unwrap();
    assert_eq!(proc.update_tss().esp0, 0x100000);
    proc.signal_save(Signal::SIGINT);
    assert_eq!(HALF_KERNEL_STACK, 32 * 4096);
    assert_eq!(proc.update_tss().esp0, 0x100000 - 32 * 4096);
}

#[test]
fn tls_entries_are_bounded() {
    let mut sched = running();
    let mut proc = sched.take(2).unwrap();
    proc.get_tls_entries()[0] = 8;
    assert_eq!(proc.update_tls(0), Some(GdtUpdate { offset: 48, entry: 8 }));
    assert_eq!(proc.update_tls(3), None);
    proc.clear_tls_entries();
    assert_eq!(proc.update_tls(0), Some(GdtUpdate { offset: 48, entry: 0 }));
    assert_eq!(proc.get_tls_entries().len(), 3);
}

#[test]
fn dummy_process_gets_memory() {
    let mut sched = running();
    let mut proc = sched.take(2).unwrap();
    let bad = DummyMemory { mem_space: Ok(4), kernel_stack: Err(12), user_stack: Err(13) };
    assert_eq!(proc.init_dummy(0x42, bad), Err(12));
    assert_eq!(proc.get_mem_space(), Some(1));
    let bad = DummyMemory { mem_space: Err(11), kernel_stack: Err(12), user_stack: Err(13) };
    assert_eq!(proc.init_dummy(0x42, bad), Err(11));
    let bad = DummyMemory { mem_space: Ok(4), kernel_stack: Ok(5), user_stack: Err(13) };
    assert_eq!(proc.init_dummy(0x42, bad), Err(13));
    let good = DummyMemory { mem_space: Ok(4), kernel_stack: Ok(5), user_stack: Ok(6) };
    assert_eq!(proc.init_dummy(0x42, good), Ok(()));
    assert_eq!(proc.get_mem_space(), Some(4));
    assert_eq!(proc.get_kernel_stack(), Some(5));
    assert_eq!(*proc.get_regs(), Regs { esp: 6, eip: 0x42, ..Regs::default() });
    assert_eq!(Process::user_stack_mapping().pages, 2048);
}

#[test]
fn memory_space_is_bound_when_running() {
    let mut sched = running();
    let mut proc = sched.take(2).unwrap();
    assert_eq!(proc.set_mem_space(Some(9)), Some(9));
    proc.set_state(&mut sched, State::Sleeping);
    assert_eq!(proc.set_mem_space(Some(8)), None);
    assert_eq!(proc.get_mem_space(), Some(8));
    assert_eq!(proc.set_mem_space(None), None);
    assert_eq!(proc.get_vmem_usage(3), 0);
}

#[test]
fn attributes_are_set() {
    let mut sched = running();
    let mut proc = sched.take(2).unwrap();
    assert!(proc.can_kill(0));
    proc.set_uid(4);
    assert!(proc.can_kill(0) && proc.can_kill(4) && !proc.can_kill(5));
    assert_eq!(proc.get_oom_score(), 0);
    proc.set_uid(0);
    assert_eq!(proc.get_oom_score(), 0);
    assert_eq!(proc.get_priority(), 0);
    assert_eq!(proc.get_nice(), 0);
    assert!(proc.get_exec_path().get_parts().is_empty());
    proc.set_chroot(Path::new(true, vec![b"srv".to_vec()]));
    assert_eq!(*proc.get_chroot().get_parts(), vec![b"srv".to_vec()]);
    proc.set_cwd(Path::new(true, vec![b"a".to_vec(), b"b".to_vec()])).unwrap();
    assert_eq!(*proc.get_cwd().get_parts(), vec![b"a".to_vec(), b"b".to_vec()]);
    proc.set_fds(Some(6));
    assert_eq!(proc.get_fds(), Some(6));
    proc.set_clear_child_tid(Some(0x10));
    assert!(proc.is_syscalling() == false);
}

#[test]
fn paths_are_concatenated() {
    let path = Path::root().concat(&Path::new(false, vec![b"a".to_vec()]));
    assert!(path.is_absolute());
    let longer = path.concat(&Path::new(false, vec![b"b".to_vec()]));
    assert_eq!(*longer.get_parts(), vec![b"a".to_vec(), b"b".to_vec()]);
    let other = longer.concat(&Path::root());
    assert!(other.is_absolute() && other.get_parts().is_empty());
}

#[test]
fn bits_are_set_and_cleared() {
    let mut bits = Bitfield::new(19);
    assert_eq!(bits.len(), 19);
    assert_eq!(bits.find_set(), None);
    bits.set(18);
    bits.set(9);
    assert_eq!(bits.find_set(), Some(9));
    assert_eq!(bits.as_slice(), &[0, 0x02, 0x04]);
    assert!(bits.is_set(18) && !bits.is_set(17));
    let copy = bits.duplicate();
    bits.clear(9);
    bits.clear(9);
    assert_eq!(bits.find_set(), Some(18));
    assert_eq!(copy.find_set(), Some(9));
}

#[test]
fn process_directory_cannot_be_changed() {
    let mut fs = KernFS { nodes: vec![b"x".to_vec()] };
    let mut dir = ProcDir::new(12, &mut fs).unwrap();
    assert_eq!(fs.nodes, vec![b"x".to_vec()]);
    dir.set_hard_links_count(4);
    dir.set_mode(0);
    dir.set_uid(5);
    dir.set_gid(6);
    dir.set_atime(7);
    dir.set_ctime(8);
    dir.set_mtime(9);
    dir.set_content(FileContent::Regular);
    assert_eq!(dir.get_pid(), 12);
    assert_eq!(dir.get_hard_links_count(), 1);
    assert_eq!(dir.get_mode(), 0o777);
    assert_eq!((dir.get_uid(), dir.get_gid()), (0, 0));
    assert_eq!((dir.get_atime(), dir.get_ctime(), dir.get_mtime()), (0, 0, 0));
    assert!(matches!(dir.get_content(), FileContent::Directory(entries) if entries.is_empty()));
    assert_eq!(dir.get_size(), 0);
    let mut buff = [1, 2];
    assert_eq!(dir.read(0, &mut buff), Err(EINVAL));
    assert_eq!(buff, [1, 2]);
    assert_eq!(dir.write(0, &[3]), Err(EINVAL));
}
