use kernel::pid_list::{Pid, INIT_PID};
use kernel::process::fork::{ForkOptions, ForkResources};
use kernel::process::regs::Regs;
use kernel::process::state::State;
use kernel::process::Process;
use kernel::scheduler::Scheduler;
use kernel::signal::{Execution, HandlerTables, Signal, SignalAction, SignalHandler, SIGNALS_COUNT};

/// Creates a system with the init process and the given children of it.
fn system(children: &[Pid]) -> (Scheduler, HandlerTables) {
    let mut sched = Scheduler::new();
    let mut tables = HandlerTables::new();
    assert_eq!(Process::new(&mut sched, &mut tables, 0, Ok(0)), Ok(INIT_PID));
    let mut init = sched.take(INIT_PID).unwrap();
    init.set_mem_space(Some(1));
    for pid in children {
        let resources = ForkResources {
            pid: Ok(*pid),
            kernel_stack: Ok(0),
            mem_space: Ok(2),
            file_descriptors: Ok(2),
            procfs: Ok(()),
        };
        let options = ForkOptions::default();
        let res = init.fork(&mut sched, &mut tables, INIT_PID, options, resources);
        assert_eq!(res, Ok(*pid));
    }
    sched.put(init);
    (sched, tables)
}

fn execution(pid: Pid, sig: Signal, no_handler: bool) -> Execution {
    Execution { pid, sig, no_handler }
}

#[test]
fn signal_ids_round_trip() {
    let mut count = 0;
    for id in 0..64 {
        match Signal::from_id(id) {
            Ok(sig) => {
                assert_eq!(sig.get_id() as u32, id);
                assert!((id as usize) < SIGNALS_COUNT);
                count += 1;
            }
            Err(e) => assert_eq!(e, 22),
        }
    }
    assert_eq!(count, 29);
    assert_eq!(Signal::from_id(0), Err(22));
    assert_eq!(Signal::from_id(16), Err(22));
    assert_eq!(Signal::from_id(32), Err(22));
    assert_eq!(Signal::from_id(9), Ok(Signal::SIGKILL));
}

#[test]
fn only_two_signals_cannot_be_caught() {
    for id in 0..32 {
        if let Ok(sig) = Signal::from_id(id) {
            let expected = sig != Signal::SIGKILL && sig != Signal::SIGSTOP;
            assert_eq!(sig.can_catch(), expected);
        }
    }
}

#[test]
fn default_actions() {
    assert_eq!(Signal::SIGCONT.get_default_action(), SignalAction::Continue);
    assert_eq!(Signal::SIGCHLD.get_default_action(), SignalAction::Ignore);
    assert_eq!(Signal::SIGSTOP.get_default_action(), SignalAction::Stop);
    assert_eq!(Signal::SIGSEGV.get_default_action(), SignalAction::Abort);
    assert_eq!(Signal::SIGTERM.get_default_action(), SignalAction::Terminate);
}

#[test]
fn caught_signal_becomes_pending() {
    let (mut sched, _) = system(&[2]);
    let mut proc = sched.take(2).unwrap();
    assert!(!proc.has_signal_pending());
    assert_eq!(proc.kill(&Signal::SIGTERM, false), None);
    assert!(proc.has_signal_pending());
    assert_eq!(proc.get_pending_signals(), &[0, 0x80, 0, 0]);
    assert_eq!(proc.get_rusage().ru_nsignals, 1);
    assert_eq!(proc.get_next_signal(), Some(Signal::SIGTERM));
    assert_eq!(proc.signal_next(), Some(execution(2, Signal::SIGTERM, false)));
}

#[test]
fn uncatchable_signal_is_executed_though_blocked() {
    let (mut sched, _) = system(&[2]);
    let mut proc = sched.take(2).unwrap();
    proc.get_sigmask_mut().set(Signal::SIGKILL.get_id() as usize);
    assert!(proc.is_signal_blocked(&Signal::SIGKILL));
    let res = proc.kill(&Signal::SIGKILL, false);
    assert_eq!(res, Some(execution(2, Signal::SIGKILL, false)));
    assert!(!proc.has_signal_pending());
    assert_eq!(proc.get_rusage().ru_nsignals, 1);
}

#[test]
fn blocked_signal_is_dropped() {
    let (mut sched, _) = system(&[2]);
    let mut proc = sched.take(2).unwrap();
    proc.get_sigmask_mut().set(Signal::SIGTERM.get_id() as usize);
    assert!(proc.get_sigmask().is_set(15));
    assert_eq!(proc.kill(&Signal::SIGTERM, true), None);
    assert!(!proc.has_signal_pending());
    assert_eq!(proc.get_rusage().ru_nsignals, 0);
}

#[test]
fn lowest_deliverable_signal_comes_next() {
    let (mut sched, _) = system(&[2]);
    let mut proc = sched.take(2).unwrap();
    for sig in [Signal::SIGUSR1, Signal::SIGINT, Signal::SIGHUP] {
        assert_eq!(proc.kill(&sig, false), None);
    }
    assert_eq!(proc.get_next_signal(), Some(Signal::SIGHUP));
    proc.get_sigmask_mut().set(Signal::SIGHUP.get_id() as usize);
    assert_eq!(proc.get_next_signal(), Some(Signal::SIGINT));
    proc.signal_clear(Signal::SIGINT);
    assert_eq!(proc.get_next_signal(), Some(Signal::SIGUSR1));
    proc.signal_clear(Signal::SIGUSR1);
    proc.signal_clear(Signal::SIGUSR1);
    assert_eq!(proc.get_next_signal(), None);
    assert!(proc.has_signal_pending());
}

#[test]
fn handling_process_takes_no_other_signal() {
    let (mut sched, _) = system(&[2]);
    let mut proc = sched.take(2).unwrap();
    proc.signal_save(Signal::SIGUSR1);
    assert!(proc.is_handling_signal());
    assert_eq!(proc.kill(&Signal::SIGINT, false), None);
    assert_eq!(proc.get_next_signal(), None);
    assert_eq!(proc.signal_next(), None);
    let res = proc.kill(&Signal::SIGSEGV, true);
    assert_eq!(res, Some(execution(2, Signal::SIGSEGV, true)));
    proc.signal_restore();
    assert_eq!(proc.get_next_signal(), Some(Signal::SIGINT));
    assert_eq!(proc.kill(&Signal::SIGSEGV, true), None);
}

#[test]
fn restore_brings_registers_back() {
    let (mut sched, _) = system(&[2]);
    let mut proc = sched.take(2).unwrap();
    let regs = Regs { esp: 0x1000, eip: 0x42, ..Regs::default() };
    proc.set_regs(regs);
    assert_eq!(proc.get_signal_stack(), 0x1000 - 128);
    proc.signal_restore();
    assert_eq!(*proc.get_regs(), regs);
    proc.signal_save(Signal::SIGINT);
    proc.set_regs(Regs::default());
    proc.signal_restore();
    assert!(!proc.is_handling_signal());
    assert_eq!(*proc.get_regs(), regs);
}

#[test]
fn continue_signal_resumes_stopped_process() {
    let (mut sched, _) = system(&[2]);
    let mut proc = sched.take(2).unwrap();
    proc.set_state(&mut sched, State::Stopped);
    assert_eq!(proc.kill(&Signal::SIGTERM, false), None);
    assert_eq!(*proc.get_state(), State::Stopped);
    assert_eq!(proc.kill(&Signal::SIGCONT, false), None);
    assert_eq!(*proc.get_state(), State::Running);
    assert_eq!(proc.get_next_signal(), Some(Signal::SIGTERM));
}

#[test]
fn signal_to_group() {
    let (mut sched, _) = system(&[2, 3, 4, 5]);
    for pid in [2, 3, 5] {
        let mut proc = sched.take(pid).unwrap();
        let pgid = if pid == 2 { 0 } else { 2 };
        assert_eq!(proc.set_pgid(&mut sched, pgid), Ok(()));
        sched.put(proc);
    }
    let mut owner = sched.take(2).unwrap();
    let res = owner.kill_group(&mut sched, Signal::SIGSTOP, false);
    let expected = vec![
        execution(3, Signal::SIGSTOP, false),
        execution(5, Signal::SIGSTOP, false),
        execution(2, Signal::SIGSTOP, false),
    ];
    assert_eq!(res, expected);
    assert_eq!(sched.get_by_pid(4).unwrap().get_rusage().ru_nsignals, 0);

    // A member that no longer exists is skipped
    sched.take(3);
    assert!(owner.kill_group(&mut sched, Signal::SIGUSR2, false).is_empty());
    assert_eq!(sched.get_by_pid(5).unwrap().get_next_signal(), Some(Signal::SIGUSR2));
    assert_eq!(owner.get_next_signal(), Some(Signal::SIGUSR2));
    assert_eq!(sched.get_by_pid(4).unwrap().get_next_signal(), None);
}

#[test]
fn group_signal_reaches_forked_processes() {
    let (mut sched, _) = system(&[2, 3]);
    let mut init = sched.take(INIT_PID).unwrap();
    assert!(init.get_joined_processes().is_empty());
    assert_eq!(init.get_group_processes(&sched), vec![1, 2, 3]);
    assert!(init.kill_group(&mut sched, Signal::SIGTERM, false).is_empty());
    assert_eq!(init.get_next_signal(), Some(Signal::SIGTERM));
    for pid in [2, 3] {
        assert_eq!(sched.get_by_pid(pid).unwrap().get_next_signal(), Some(Signal::SIGTERM));
        assert_eq!(sched.get_by_pid(pid).unwrap().get_rusage().ru_nsignals, 1);
    }
}

#[test]
fn group_signal_from_a_member_reaches_the_owner() {
    let (mut sched, _) = system(&[2, 3, 4]);
    for (pid, pgid) in [(2, 0), (3, 2)] {
        let mut proc = sched.take(pid).unwrap();
        proc.set_pgid(&mut sched, pgid).unwrap();
        sched.put(proc);
    }
    let mut member = sched.take(3).unwrap();
    assert_eq!(member.get_group_processes(&sched), vec![2, 3]);
    let res = member.kill_group(&mut sched, Signal::SIGKILL, false);
    let expected =
        vec![execution(2, Signal::SIGKILL, false), execution(3, Signal::SIGKILL, false)];
    assert_eq!(res, expected);
}

#[test]
fn group_signal_stays_in_the_group_of_the_sender() {
    let (mut sched, _) = system(&[2, 3, 4]);
    // The process 2 lists the process 3 but is in the group 1, as is 4
    let mut joining = sched.take(3).unwrap();
    joining.set_pgid(&mut sched, 2).unwrap();
    sched.put(joining);
    let mut sender = sched.take(2).unwrap();
    assert_eq!(*sender.get_joined_processes(), vec![3]);
    assert_eq!(sender.get_group_processes(&sched), vec![1, 2, 4]);
    sender.kill_group(&mut sched, Signal::SIGTERM, false);
    assert_eq!(sched.get_by_pid(3).unwrap().get_next_signal(), None);
    assert_eq!(sched.get_by_pid(4).unwrap().get_next_signal(), Some(Signal::SIGTERM));
    assert_eq!(sched.get_by_pid(INIT_PID).unwrap().get_next_signal(), Some(Signal::SIGTERM));
}

#[test]
fn receiving_commutes_with_notification() {
    for kill_first in [true, false] {
        let (mut sched, _) = system(&[2]);
        let mut child = sched.take(2).unwrap();
        let mut init = sched.take(INIT_PID).unwrap();
        init.set_state(&mut sched, State::Stopped);
        if kill_first {
            init.kill(&Signal::SIGCONT, false);
        }
        sched.put(init);
        child.set_waitable(&mut sched, 0);
        let mut init = sched.take(INIT_PID).unwrap();
        if !kill_first {
            init.kill(&Signal::SIGCONT, false);
        }
        assert_eq!(*init.get_state(), State::Running);
        assert_eq!(init.get_rusage().ru_nsignals, 2);
        assert_eq!(init.get_pending_signals(), &[0, 0, 0x06, 0]);
    }
}

#[test]
fn signals_can_be_received() {
    let (sched, _) = system(&[2]);
    let proc = sched.get_by_pid(2).unwrap();
    assert!(proc.can_receive(&Signal::SIGTERM));
    assert!(proc.can_receive(&Signal::SIGKILL));
}

#[test]
fn handlers_are_set_and_read() {
    let (sched, mut tables) = system(&[2]);
    let init = sched.get_by_pid(INIT_PID).unwrap();
    let child = sched.get_by_pid(2).unwrap();
    let handler = SignalHandler::Handler(0x1234);
    init.set_signal_handler(&mut tables, &Signal::SIGINT, handler);
    assert_eq!(init.get_signal_handler(&tables, &Signal::SIGINT), handler);
    assert_eq!(init.get_signal_handler(&tables, &Signal::SIGTERM), SignalHandler::Default);
    assert_eq!(child.get_signal_handler(&tables, &Signal::SIGINT), SignalHandler::Default);
    child.set_signal_handler(&mut tables, &Signal::SIGINT, SignalHandler::Ignore);
    assert_eq!(init.get_signal_handler(&tables, &Signal::SIGINT), handler);
}
