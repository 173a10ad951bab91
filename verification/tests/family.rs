use kernel::errno::ESRCH;
use kernel::pid_list::{Pid, INIT_PID};
use kernel::process::fork::{ForkOptions, ForkResources};
use kernel::process::holders::References;
use kernel::process::state::State;
use kernel::process::Process;
use kernel::scheduler::Scheduler;
use kernel::signal::{HandlerTables, Signal};

fn new_system() -> (Scheduler, HandlerTables) {
    let mut sched = Scheduler::new();
    let mut tables = HandlerTables::new();
    assert_eq!(Process::new(&mut sched, &mut tables, 0, Ok(0)), Ok(INIT_PID));
    let mut init = sched.take(INIT_PID).unwrap();
    init.set_mem_space(Some(1));
    sched.put(init);
    (sched, tables)
}

fn fork(sched: &mut Scheduler, tables: &mut HandlerTables, parent: Pid, pid: Pid, vfork: bool) {
    let mut proc = sched.take(parent).unwrap();
    let resources = ForkResources {
        pid: Ok(pid),
        kernel_stack: Ok(0x8000),
        mem_space: Ok(2),
        file_descriptors: Ok(2),
        procfs: Ok(()),
    };
    let options = ForkOptions { vfork, ..ForkOptions::default() };
    assert_eq!(proc.fork(sched, tables, parent, options, resources), Ok(pid));
    sched.put(proc);
}

fn exit(sched: &mut Scheduler, pid: Pid, status: u32, signaled: bool) {
    let mut proc = sched.take(pid).unwrap();
    assert!(proc.can_exit(sched));
    proc.exit(sched, status, signaled);
    sched.put(proc);
}

fn get(sched: &Scheduler, pid: Pid) -> &Process {
    Process::get_by_pid(sched, pid).unwrap()
}

#[test]
fn children_are_added_and_removed() {
    let (mut sched, _) = new_system();
    let mut init = sched.take(INIT_PID).unwrap();
    for pid in [7, 3, 5] {
        assert!(!init.has_child(pid));
        assert_eq!(init.add_child(pid), Ok(()));
        assert!(init.has_child(pid));
    }
    assert_eq!(*init.get_children(), vec![3, 5, 7]);
    init.add_child(5).unwrap();
    assert_eq!(*init.get_children(), vec![3, 5, 5, 7]);
    init.remove_child(5);
    assert_eq!(*init.get_children(), vec![3, 5, 7]);
    init.remove_child(4);
    assert_eq!(*init.get_children(), vec![3, 5, 7]);
    init.remove_child(3);
    init.remove_child(7);
    assert_eq!(*init.get_children(), vec![5]);
}

#[test]
fn groups_follow_set_pgid() {
    let (mut sched, mut tables) = new_system();
    for pid in [2, 3, 4] {
        fork(&mut sched, &mut tables, INIT_PID, pid, false);
    }
    let mut proc = sched.take(3).unwrap();
    assert_eq!(proc.get_pgid(), INIT_PID);
    assert!(proc.is_in_group());
    assert_eq!(proc.set_pgid(&mut sched, 9), Err(ESRCH));
    assert_eq!(proc.get_pgid(), INIT_PID);
    assert_eq!(proc.set_pgid(&mut sched, 2), Ok(()));
    assert_eq!(proc.get_pgid(), 2);
    assert_eq!(*get(&sched, 2).get_joined_processes(), vec![3]);
    assert_eq!(proc.set_pgid(&mut sched, 2), Ok(()));
    assert_eq!(*get(&sched, 2).get_joined_processes(), vec![3]);
    assert_eq!(proc.set_pgid(&mut sched, 4), Ok(()));
    assert!(get(&sched, 2).get_joined_processes().is_empty());
    assert_eq!(*get(&sched, 4).get_joined_processes(), vec![3]);
    assert_eq!(proc.set_pgid(&mut sched, 0), Ok(()));
    assert_eq!(proc.get_pgid(), 3);
    assert!(!proc.is_in_group());
    assert!(get(&sched, 4).get_joined_processes().is_empty());
}

#[test]
fn group_members_are_in_order() {
    let (mut sched, mut tables) = new_system();
    for pid in [6, 4, 5, 2] {
        fork(&mut sched, &mut tables, INIT_PID, pid, false);
    }
    for pid in [6, 4, 5] {
        let mut proc = sched.take(pid).unwrap();
        proc.set_pgid(&mut sched, 2).unwrap();
        sched.put(proc);
    }
    assert_eq!(*get(&sched, 2).get_joined_processes(), vec![4, 5, 6]);
}

#[test]
fn orphan_group() {
    let (mut sched, mut tables) = new_system();
    fork(&mut sched, &mut tables, INIT_PID, 2, false);
    fork(&mut sched, &mut tables, INIT_PID, 3, false);
    let mut proc = sched.take(3).unwrap();
    proc.set_pgid(&mut sched, 2).unwrap();
    assert!(!proc.is_in_orphan_process_group(&sched));
    sched.take(2);
    assert!(proc.is_in_orphan_process_group(&sched));
    proc.set_pgid(&mut sched, 0).unwrap();
    assert!(!proc.is_in_orphan_process_group(&sched));
}

#[test]
fn init_adopts_orphans() {
    let (mut sched, mut tables) = new_system();
    fork(&mut sched, &mut tables, INIT_PID, 2, false);
    fork(&mut sched, &mut tables, 2, 3, false);
    fork(&mut sched, &mut tables, 2, 4, false);
    fork(&mut sched, &mut tables, 2, 5, false);
    sched.take(4);
    assert_eq!(get(&sched, 3).get_parent(), Some(2));
    exit(&mut sched, 2, 0, false);
    assert_eq!(get(&sched, 3).get_parent(), Some(INIT_PID));
    assert_eq!(get(&sched, 5).get_parent_pid(), INIT_PID);
    assert_eq!(*get(&sched, INIT_PID).get_children(), vec![2, 3, 5]);
    for pid in sched.pids() {
        assert_ne!(get(&sched, pid).get_parent(), Some(2));
    }
    assert_eq!(get(&sched, INIT_PID).get_parent_pid(), INIT_PID);
}

#[test]
fn exit_records_status() {
    let (mut sched, mut tables) = new_system();
    fork(&mut sched, &mut tables, INIT_PID, 2, false);
    assert_eq!(get(&sched, 2).get_exit_status(), None);
    assert!(!get(&sched, 2).is_waitable());
    assert_eq!(get(&sched, 2).get_fds(), Some(2));
    let held = get(&sched, 2).get_references();
    exit(&mut sched, 2, 0x1_2a, false);
    let unheld = sched.get_unheld(held);
    assert_eq!(unheld, References { mem_space: None, file_descriptors: Some(2) });
    let proc = get(&sched, 2);
    assert_eq!(*proc.get_state(), State::Zombie);
    assert_eq!(proc.get_exit_status(), Some(0x2a));
    assert_eq!(proc.get_termsig(), 0);
    assert!(proc.is_waitable());
    assert_eq!(proc.get_fds(), None);
    assert_eq!(proc.get_mem_space(), None);
    assert_eq!(proc.get_held_mem_space(), Some(2));
    assert_eq!(proc.get_vmem_usage(12), 12);
    assert!(!proc.can_run());
}

#[test]
fn exit_by_signal_records_signal() {
    let (mut sched, mut tables) = new_system();
    fork(&mut sched, &mut tables, INIT_PID, 2, false);
    exit(&mut sched, 2, 9, true);
    assert_eq!(get(&sched, 2).get_exit_status(), Some(0));
    assert_eq!(get(&sched, 2).get_termsig(), 9);
}

#[test]
fn exit_notifies_sleeping_parent() {
    let (mut sched, mut tables) = new_system();
    fork(&mut sched, &mut tables, INIT_PID, 2, false);
    fork(&mut sched, &mut tables, 2, 3, false);
    let mut parent = sched.take(2).unwrap();
    parent.set_state(&mut sched, State::Sleeping);
    sched.put(parent);
    exit(&mut sched, 3, 0, false);
    assert_eq!(*get(&sched, 2).get_state(), State::Running);
    assert_eq!(get(&sched, 2).get_next_signal(), Some(Signal::SIGCHLD));
}

#[test]
fn blocked_notification_still_wakes_parent() {
    let (mut sched, mut tables) = new_system();
    fork(&mut sched, &mut tables, INIT_PID, 2, false);
    fork(&mut sched, &mut tables, 2, 3, false);
    let mut parent = sched.take(2).unwrap();
    parent.set_state(&mut sched, State::Sleeping);
    parent.get_sigmask_mut().set(Signal::SIGCHLD.get_id() as usize);
    sched.put(parent);
    exit(&mut sched, 3, 0, false);
    assert_eq!(*get(&sched, 2).get_state(), State::Running);
    assert!(!get(&sched, 2).has_signal_pending());
}

#[test]
fn zombie_stays_zombie() {
    let (mut sched, mut tables) = new_system();
    fork(&mut sched, &mut tables, INIT_PID, 2, false);
    exit(&mut sched, 2, 1, false);
    let mut proc = sched.take(2).unwrap();
    proc.set_state(&mut sched, State::Running);
    assert_eq!(*proc.get_state(), State::Zombie);
    proc.wake();
    assert_eq!(*proc.get_state(), State::Zombie);
    proc.kill(&Signal::SIGCONT, false);
    assert_eq!(*proc.get_state(), State::Zombie);
    proc.clear_waitable();
    assert!(!proc.is_waitable());
    proc.exit(&mut sched, 2, false);
    assert_eq!(proc.get_exit_status(), Some(2));
    assert!(proc.is_waitable());
}

#[test]
fn init_cannot_exit() {
    let (mut sched, _) = new_system();
    let init = sched.take(INIT_PID).unwrap();
    assert!(!init.can_exit(&sched));
}

#[test]
fn process_without_parent_in_scheduler_cannot_exit() {
    let (mut sched, mut tables) = new_system();
    fork(&mut sched, &mut tables, INIT_PID, 2, false);
    fork(&mut sched, &mut tables, 2, 3, false);
    sched.take(2);
    let proc = sched.take(3).unwrap();
    assert!(!proc.can_exit(&sched));
}

#[test]
fn wake_only_sleeping() {
    let (mut sched, mut tables) = new_system();
    fork(&mut sched, &mut tables, INIT_PID, 2, false);
    let mut proc = sched.take(2).unwrap();
    proc.set_state(&mut sched, State::Stopped);
    proc.wake();
    assert_eq!(*proc.get_state(), State::Stopped);
    proc.set_state(&mut sched, State::Sleeping);
    assert!(!proc.can_run());
    proc.wake();
    assert_eq!(*proc.get_state(), State::Running);
    assert!(proc.can_run());
}

#[test]
fn vfork_parent_waits_for_exit() {
    let (mut sched, mut tables) = new_system();
    fork(&mut sched, &mut tables, INIT_PID, 2, false);
    fork(&mut sched, &mut tables, 2, 3, true);
    assert_eq!(*get(&sched, 2).get_state(), State::Running);
    assert!(!get(&sched, 2).can_run());
    assert!(get(&sched, 3).can_run());
    exit(&mut sched, 3, 0, false);
    assert!(get(&sched, 2).can_run());
}

#[test]
fn vfork_parent_waits_for_reset() {
    let (mut sched, mut tables) = new_system();
    fork(&mut sched, &mut tables, INIT_PID, 2, false);
    fork(&mut sched, &mut tables, 2, 3, true);
    let mut child = sched.take(3).unwrap();
    child.reset_vfork(&mut sched);
    assert!(get(&sched, 2).can_run());
    let mut parent = sched.take(2).unwrap();
    parent.reset_vfork(&mut sched);
    assert!(parent.can_run());
}

#[test]
fn set_waitable_keeps_signal_type() {
    let (mut sched, mut tables) = new_system();
    fork(&mut sched, &mut tables, INIT_PID, 2, false);
    let mut proc = sched.take(2).unwrap();
    proc.set_waitable(&mut sched, 19);
    assert!(proc.is_waitable());
    assert_eq!(proc.get_termsig(), 19);
    assert_eq!(get(&sched, INIT_PID).get_next_signal(), Some(Signal::SIGCHLD));
}
