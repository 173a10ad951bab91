use kernel::errno::{EINVAL, EPERM, ESRCH};
use kernel::pid_list::{Pid, INIT_PID};
use kernel::process::fork::{ForkOptions, ForkResources};
use kernel::process::regs::Regs;
use kernel::process::state::State;
use kernel::process::Process;
use kernel::scheduler::Scheduler;
use kernel::signal::{Execution, HandlerTables, Signal};
use kernel::syscall::getgid::getgid;
use kernel::syscall::kill::{
    handle_kill, is_sendable, kill, kill_end, kill_pending, send_signal, try_kill, KillEnd,
    KillStage, KillStep,
};

/// Creates a system with processes whose user ID is ten times their ID.
fn users(pids: &[Pid]) -> Scheduler {
    let mut sched = Scheduler::new();
    let mut tables = HandlerTables::new();
    Process::new(&mut sched, &mut tables, 0, Ok(0)).unwrap();
    let mut init = sched.take(INIT_PID).unwrap();
    init.set_mem_space(Some(1));
    for pid in pids {
        let resources = ForkResources {
            pid: Ok(*pid),
            kernel_stack: Ok(0),
            mem_space: Ok(2),
            file_descriptors: Ok(2),
            procfs: Ok(()),
        };
        init.fork(&mut sched, &mut tables, INIT_PID, ForkOptions::default(), resources).unwrap();
        let mut proc = sched.take(*pid).unwrap();
        proc.set_uid(*pid * 10);
        proc.set_euid(*pid * 10);
        proc.set_gid(*pid + 1000);
        proc.set_pgid(&mut sched, 0).unwrap();
        sched.put(proc);
    }
    sched.put(init);
    sched
}

fn edit(sched: &mut Scheduler, pid: Pid, work: impl Fn(&mut Process, &mut Scheduler)) {
    let mut proc = sched.take(pid).unwrap();
    work(&mut proc, sched);
    sched.put(proc);
}

fn next(sched: &Scheduler, pid: Pid) -> Option<Signal> {
    sched.get_by_pid(pid).unwrap().get_next_signal()
}

fn call(pid: i32, sig: u32) -> Regs {
    Regs { ebx: pid as u32, ecx: sig, ..Regs::default() }
}

const TERM: Option<Signal> = Some(Signal::SIGTERM);

#[test]
fn getgid_of_current_process() {
    let mut sched = users(&[2, 3]);
    sched.set_current_pid(Some(3));
    assert_eq!(getgid(&sched), Ok(1003));
    sched.set_current_pid(Some(2));
    assert_eq!(getgid(&sched), Ok(1002));
}

#[test]
fn try_kill_checks_process_and_permission() {
    let mut sched = users(&[2, 3]);
    assert_eq!(try_kill(&mut sched, 9, TERM, 20).err(), Some(ESRCH));
    assert_eq!(try_kill(&mut sched, 2, TERM, 30).err(), Some(EPERM));
    assert_eq!(next(&sched, 2), None);
    let sent = try_kill(&mut sched, 2, TERM, 20).unwrap();
    assert_eq!(sent.code, 0);
    assert!(sent.executions.is_empty());
    assert_eq!(next(&sched, 2), TERM);
    edit(&mut sched, 3, |p, _| p.set_uid(20));
    assert!(try_kill(&mut sched, 3, None, 20).is_ok());
    assert_eq!(next(&sched, 3), None);
    edit(&mut sched, 3, |p, s| p.set_state(s, State::Zombie));
    assert_eq!(try_kill(&mut sched, 3, TERM, 20).err(), Some(ESRCH));
    assert_eq!(try_kill(&mut sched, 3, None, 20).err(), Some(ESRCH));
}

#[test]
fn uncatchable_signal_is_to_be_executed() {
    let mut sched = users(&[2]);
    let sent = try_kill(&mut sched, 2, Some(Signal::SIGKILL), 20).unwrap();
    let execution = Execution { pid: 2, sig: Signal::SIGKILL, no_handler: false };
    assert_eq!(sent.executions, vec![execution]);
}

#[test]
fn signal_to_oneself() {
    let mut sched = users(&[2]);
    let mut proc = sched.take(2).unwrap();
    assert_eq!(send_signal(2, TERM, &mut proc, &mut sched).unwrap().code, 0);
    assert_eq!(proc.get_next_signal(), TERM);
    let sent = send_signal(2, Some(Signal::SIGSTOP), &mut proc, &mut sched).unwrap();
    let execution = Execution { pid: 2, sig: Signal::SIGSTOP, no_handler: false };
    assert_eq!(sent.executions, vec![execution]);
}

#[test]
fn signal_to_another_process() {
    let mut sched = users(&[2, 3]);
    let mut proc = sched.take(2).unwrap();
    assert_eq!(send_signal(3, TERM, &mut proc, &mut sched).err(), Some(EPERM));
    proc.set_euid(30);
    assert!(send_signal(3, TERM, &mut proc, &mut sched).is_ok());
    assert_eq!(next(&sched, 3), TERM);
    assert_eq!(proc.get_next_signal(), None);
}

#[test]
fn signal_to_own_group() {
    let mut sched = users(&[2, 3, 4]);
    let mut proc = sched.take(2).unwrap();
    assert_eq!(send_signal(0, TERM, &mut proc, &mut sched).err(), Some(ESRCH));
    assert_eq!(send_signal(-2, None, &mut proc, &mut sched).err(), Some(ESRCH));
    sched.put(proc);
    edit(&mut sched, 4, |p, s| p.set_pgid(s, 2).unwrap());
    let mut proc = sched.take(2).unwrap();
    // No member could be killed
    assert_eq!(send_signal(0, None, &mut proc, &mut sched).err(), Some(ESRCH));
    assert!(!is_sendable(0, TERM, &proc, &sched));
    edit(&mut sched, 4, |p, _| p.set_uid(20));
    assert!(is_sendable(0, TERM, &proc, &sched));
    assert!(send_signal(-2, None, &mut proc, &mut sched).is_ok());
    assert_eq!(next(&sched, 4), None);
    assert!(send_signal(-2, TERM, &mut proc, &mut sched).is_ok());
    assert_eq!(next(&sched, 4), TERM);
    assert_eq!(next(&sched, 3), None);
    assert_eq!(proc.get_next_signal(), None);
}

#[test]
fn signal_to_another_group() {
    let mut sched = users(&[2, 3, 4, 5]);
    edit(&mut sched, 4, |p, s| p.set_pgid(s, 3).unwrap());
    edit(&mut sched, 5, |p, s| p.set_pgid(s, 3).unwrap());
    let mut proc = sched.take(2).unwrap();
    assert_eq!(send_signal(-9, TERM, &mut proc, &mut sched).err(), Some(ESRCH));
    assert!(!is_sendable(-3, TERM, &proc, &sched));
    edit(&mut sched, 4, |p, _| p.set_uid(20));
    edit(&mut sched, 5, |p, _| p.set_euid(20));
    // The owner of the group may belong to someone else
    assert!(is_sendable(-3, TERM, &proc, &sched));
    let sent = send_signal(-3, Some(Signal::SIGKILL), &mut proc, &mut sched).unwrap();
    let pids: Vec<Pid> = sent.executions.iter().map(|e| e.pid).collect();
    assert_eq!(pids, vec![4, 5]);
    assert_eq!(sched.get_by_pid(3).unwrap().get_rusage().ru_nsignals, 0);
}

#[test]
fn sender_counts_in_the_group_of_another() {
    let mut sched = users(&[2, 3]);
    edit(&mut sched, 2, |p, s| p.set_pgid(s, 3).unwrap());
    let mut proc = sched.take(2).unwrap();
    assert_eq!(send_signal(-3, None, &mut proc, &mut sched).unwrap().code, 0);
    assert!(!is_sendable(-3, TERM, &proc, &sched));
}

#[test]
fn signal_to_all_processes() {
    let mut sched = users(&[2, 3, 4, 5]);
    let mut proc = sched.take(2).unwrap();
    assert_eq!(send_signal(-1, TERM, &mut proc, &mut sched).err(), Some(ESRCH));
    assert_eq!(send_signal(-1, None, &mut proc, &mut sched).err(), Some(ESRCH));
    for pid in [5, 3, INIT_PID] {
        edit(&mut sched, pid, |p, _| p.set_uid(20));
    }
    assert!(send_signal(-1, None, &mut proc, &mut sched).is_ok());
    let sent = send_signal(-1, Some(Signal::SIGKILL), &mut proc, &mut sched).unwrap();
    let pids: Vec<Pid> = sent.executions.iter().map(|e| e.pid).collect();
    assert_eq!(pids, vec![3, 5]);
    assert!(send_signal(-1, TERM, &mut proc, &mut sched).unwrap().executions.is_empty());
    assert_eq!(next(&sched, 3), TERM);
    assert_eq!(next(&sched, 5), TERM);
    assert_eq!(next(&sched, 4), None);
    assert_eq!(next(&sched, INIT_PID), None);
    assert_eq!(proc.get_next_signal(), None);
}

#[test]
fn init_sends_to_its_group_with_minus_one() {
    let mut sched = users(&[2]);
    let mut init = sched.take(INIT_PID).unwrap();
    init.set_euid(20);
    assert_eq!(send_signal(-1, TERM, &mut init, &mut sched).err(), Some(ESRCH));
    assert_eq!(next(&sched, 2), None);
}

#[test]
fn result_does_not_depend_on_signal() {
    for pid in [2, 3, 9, 0, -2, -1, -3, -9] {
        for member in [20, 30] {
            let mut sched = users(&[2, 3, 4, 5]);
            edit(&mut sched, 4, |p, s| p.set_pgid(s, 3).unwrap());
            edit(&mut sched, 5, |p, s| p.set_pgid(s, 2).unwrap());
            edit(&mut sched, 4, |p, _| p.set_uid(member));
            edit(&mut sched, 5, |p, _| p.set_uid(member));
            let mut proc = sched.take(2).unwrap();
            if is_sendable(pid, TERM, &proc, &sched) {
                let with = send_signal(pid, TERM, &mut proc, &mut sched).map(|s| s.code);
                let without = send_signal(pid, None, &mut proc, &mut sched).map(|s| s.code);
                assert_eq!(with, without);
            }
        }
    }
}

#[test]
fn kill_call_decodes_registers() {
    let mut sched = users(&[2, 3]);
    edit(&mut sched, 3, |p, _| p.set_uid(20));
    assert_eq!(kill(&call(3, 16), &mut sched).err(), Some(EINVAL));
    sched.set_current_pid(Some(2));
    assert_eq!(kill(&call(3, 16), &mut sched).err(), Some(EINVAL));
    assert_eq!(kill(&call(3, 100), &mut sched).err(), Some(EINVAL));
    assert_eq!(kill(&call(9, 15), &mut sched).err(), Some(ESRCH));
    assert_eq!(kill(&call(1, 15), &mut sched).err(), Some(EPERM));
    assert_eq!(kill(&call(3, 0), &mut sched).unwrap().code, 0);
    assert_eq!(kill(&call(3, u32::MAX), &mut sched).unwrap().code, 0);
    assert_eq!(next(&sched, 3), None);
    assert_eq!(kill(&call(3, 15), &mut sched).unwrap().code, 0);
    assert_eq!(next(&sched, 3), TERM);
    assert_eq!(sched.pids(), vec![1, 2, 3]);
    assert_eq!(sched.get_current_pid(), Some(2));
}

#[test]
fn zero_and_negated_id_stand_for_own_group() {
    for own in [1, 2] {
        for pid in [0, -own] {
            let mut sched = users(&[2, 3, 4]);
            let uid = if own == 1 { 0 } else { 20 };
            edit(&mut sched, 3, |p, s| p.set_pgid(s, own as Pid).unwrap());
            edit(&mut sched, 3, |p, _| p.set_uid(uid));
            edit(&mut sched, 4, |p, _| p.set_uid(uid));
            let mut proc = sched.take(own as Pid).unwrap();
            assert!(is_sendable(pid, TERM, &proc, &sched));
            assert_eq!(send_signal(pid, TERM, &mut proc, &mut sched).unwrap().code, 0);
            assert_eq!(next(&sched, 3), TERM);
            assert_eq!(next(&sched, 4), None);
            assert_eq!(proc.get_next_signal(), None);
        }
    }
}

#[test]
fn negative_signal_number_acts_as_zero() {
    for (pid, expected) in [(3, Ok(0)), (9, Err(ESRCH)), (1, Err(EPERM)), (-1, Ok(0))] {
        for number in [0, u32::MAX, 0x8000_0000] {
            let mut sched = users(&[2, 3]);
            edit(&mut sched, 3, |p, _| p.set_uid(20));
            sched.set_current_pid(Some(2));
            let res = kill(&call(pid, number), &mut sched);
            let res = res.map(|sent| (sent.code, sent.executions.len()));
            assert_eq!(res, expected.map(|code| (code, 0)));
            assert_eq!(next(&sched, 3), None);
        }
    }
}

#[test]
fn kill_call_handles_a_pending_signal() {
    let mut sched = users(&[2]);
    sched.set_current_pid(Some(2));
    assert_eq!(kill_pending(&sched), None);
    kill(&call(2, 15), &mut sched).unwrap();
    let execution = Execution { pid: 2, sig: Signal::SIGTERM, no_handler: false };
    assert_eq!(kill_pending(&sched), Some(execution));
}

#[test]
fn kill_call_goes_on_step_by_step() {
    let mut sched = users(&[2, 3]);
    sched.set_current_pid(Some(2));
    let step = handle_kill(KillStage::Begin, &call(9, 15), &mut sched);
    assert!(matches!(step, KillStep::Return(Err(ESRCH))));
    let regs = call(2, 15);
    match handle_kill(KillStage::Begin, &regs, &mut sched) {
        KillStep::Execute(list, KillStage::Sent) => assert!(list.is_empty()),
        step => panic!("{:?}", step),
    }
    let execution = Execution { pid: 2, sig: Signal::SIGTERM, no_handler: false };
    match handle_kill(KillStage::Sent, &regs, &mut sched) {
        KillStep::Execute(list, KillStage::SignalExecuted) => assert_eq!(list, vec![execution]),
        step => panic!("{:?}", step),
    }
    let step = handle_kill(KillStage::SignalExecuted, &regs, &mut sched);
    assert!(matches!(step, KillStep::Wait(KillStage::Waited)));
    let step = handle_kill(KillStage::Waited, &regs, &mut sched);
    assert!(matches!(step, KillStep::Return(Ok(0))));

    // Without a pending signal, the call ends at once
    edit(&mut sched, 2, |p, _| p.signal_clear(Signal::SIGTERM));
    edit(&mut sched, 2, |p, s| p.set_state(s, State::Sleeping));
    let step = handle_kill(KillStage::Sent, &regs, &mut sched);
    assert!(matches!(step, KillStep::Return(Ok(0))));
    edit(&mut sched, 2, |p, s| p.set_state(s, State::Zombie));
    let step = handle_kill(KillStage::SignalExecuted, &regs, &mut sched);
    assert!(matches!(step, KillStep::EnterLoop));
}

#[test]
fn kill_call_ends_according_to_state() {
    let mut sched = users(&[2]);
    sched.set_current_pid(Some(2));
    assert_eq!(kill_end(&sched), KillEnd::Wait);
    edit(&mut sched, 2, |p, s| p.set_state(s, State::Stopped));
    assert_eq!(kill_end(&sched), KillEnd::Wait);
    edit(&mut sched, 2, |p, s| p.set_state(s, State::Sleeping));
    assert_eq!(kill_end(&sched), KillEnd::Return);
    edit(&mut sched, 2, |p, s| p.set_state(s, State::Zombie));
    assert_eq!(kill_end(&sched), KillEnd::EnterLoop);
}
