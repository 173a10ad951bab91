use kernel::pid_list::INIT_PID;
use kernel::path::Path;
use kernel::process::fork::{
    FdRequest, ForkFailure, ForkOptions, ForkResources, MemoryRequest, Release, StackUnmapping,
};
use kernel::process::holders::References;
use kernel::process::regs::Regs;
use kernel::process::state::State;
use kernel::process::Process;
use kernel::scheduler::Scheduler;
use kernel::signal::{HandlerTables, Signal, SignalHandler};

fn init_system() -> (Scheduler, HandlerTables, Process) {
    let mut sched = Scheduler::new();
    let mut tables = HandlerTables::new();
    assert_eq!(Process::new(&mut sched, &mut tables, 5, Ok(3)), Ok(INIT_PID));
    let mut init = sched.take(INIT_PID).unwrap();
    assert_eq!(init.set_mem_space(Some(7)), Some(7));
    (sched, tables, init)
}

fn resources() -> ForkResources {
    ForkResources {
        pid: Ok(2),
        kernel_stack: Ok(0x8000),
        mem_space: Ok(8),
        file_descriptors: Ok(4),
        procfs: Ok(()),
    }
}

#[test]
fn default_options_share_nothing() {
    let options = ForkOptions::default();
    assert!(!options.share_memory);
    assert!(!options.share_fd);
    assert!(!options.share_sighand);
    assert!(!options.vfork);
}

#[test]
fn new_process_is_init() {
    let (sched, tables, init) = init_system();
    assert!(sched.pids().is_empty());
    assert!(init.is_init());
    assert_eq!(init.get_pid(), 1);
    assert_eq!(init.get_tid(), 1);
    assert_eq!(init.get_pgid(), 1);
    assert_eq!(init.get_uid(), 0);
    assert_eq!(init.get_gid(), 0);
    assert_eq!(init.get_umask(), 0o022);
    assert_eq!(*init.get_state(), State::Running);
    assert_eq!(init.get_tty(), 5);
    assert_eq!(init.get_fds(), Some(3));
    assert_eq!(init.get_parent(), None);
    assert!(init.get_cwd().is_absolute());
    assert!(init.get_cwd().get_parts().is_empty());
    assert_eq!(*init.get_regs(), Regs::default());
    assert_eq!(init.get_signal_handler(&tables, &Signal::SIGINT), SignalHandler::Default);
}

#[test]
fn new_process_fails_without_descriptors() {
    let mut sched = Scheduler::new();
    let mut tables = HandlerTables::new();
    assert_eq!(Process::new(&mut sched, &mut tables, 5, Err(2)), Err(2));
    assert!(sched.pids().is_empty());
}

#[test]
fn requests_follow_options() {
    let (_, _, init) = init_system();
    let none = ForkOptions::default();
    let memory = ForkOptions { share_memory: true, ..none };
    let vfork = ForkOptions { vfork: true, ..none };
    let fds = ForkOptions { share_fd: true, ..none };
    assert_eq!(init.fork_memory(&none), MemoryRequest::Fork(7));
    let stack = Process::kernel_stack_mapping();
    assert_eq!(stack.pages, 64);
    assert_eq!(init.fork_memory(&memory), MemoryRequest::MapStack(7, stack));
    assert_eq!(init.fork_memory(&vfork), MemoryRequest::MapStack(7, stack));
    assert_eq!(init.fork_fds(&none), FdRequest::Duplicate(3));
    assert_eq!(init.fork_fds(&fds), FdRequest::Keep);
}

#[test]
fn child_is_a_copy() {
    let (mut sched, mut tables, mut init) = init_system();
    init.set_uid(10);
    init.set_euid(11);
    init.set_suid(12);
    init.set_gid(13);
    init.set_egid(14);
    init.set_sgid(15);
    init.set_umask(0o077);
    init.set_argv(vec![b"sh".to_vec(), b"-c".to_vec()]);
    init.set_cwd(Path::new(false, vec![b"tmp".to_vec()])).unwrap();
    init.get_sigmask_mut().set(4);
    init.kill(&Signal::SIGTERM, false);
    init.get_tls_entries()[1] = 99;
    let regs = Regs { eax: 3, ..Regs::default() };
    init.set_regs(regs);
    init.set_syscalling(true);
    let res = init.fork(&mut sched, &mut tables, 1, ForkOptions::default(), resources());
    assert_eq!(res, Ok(2));
    assert!(init.has_child(2));
    let child = Process::get_by_tid(&sched, 2).unwrap();
    assert_eq!(child.get_pid(), 2);
    assert_eq!(child.get_parent(), Some(1));
    assert_eq!(child.get_pgid(), 1);
    assert_eq!((child.get_uid(), child.get_euid(), child.get_suid()), (10, 11, 12));
    assert_eq!((child.get_gid(), child.get_egid(), child.get_sgid()), (13, 14, 15));
    assert_eq!(child.get_umask(), 0o077);
    assert_eq!(*child.get_argv(), vec![b"sh".to_vec(), b"-c".to_vec()]);
    assert!(child.get_cwd().is_absolute());
    assert_eq!(*child.get_cwd().get_parts(), vec![b"tmp".to_vec()]);
    assert!(child.get_sigmask().is_set(4));
    assert!(!child.has_signal_pending());
    assert_eq!(child.update_tls(1).unwrap().entry, 99);
    assert_eq!(*child.get_regs(), regs);
    assert!(!child.is_syscalling());
    assert_eq!(child.get_rusage().ru_nsignals, 0);
    assert_eq!(child.get_mem_space(), Some(8));
    assert_eq!(child.get_kernel_stack(), None);
    assert_eq!(child.get_fds(), Some(4));
    assert!(child.get_children().is_empty());
    assert!(child.can_run());
}

#[test]
fn child_shares_what_was_asked() {
    let (mut sched, mut tables, mut init) = init_system();
    let options =
        ForkOptions { share_memory: true, share_fd: true, share_sighand: true, vfork: false };
    let unused = ForkResources { mem_space: Err(12), file_descriptors: Err(12), ..resources() };
    assert_eq!(init.fork(&mut sched, &mut tables, 1, options, unused), Ok(2));
    let child = sched.take(2).unwrap();
    assert_eq!(child.get_mem_space(), Some(7));
    assert_eq!(child.get_kernel_stack(), Some(0x8000));
    assert_eq!(child.get_fds(), Some(3));
    let handler = SignalHandler::Handler(1);
    child.set_signal_handler(&mut tables, &Signal::SIGHUP, handler);
    assert_eq!(init.get_signal_handler(&tables, &Signal::SIGHUP), handler);
    child.drop(&mut tables);
    assert_eq!(init.get_signal_handler(&tables, &Signal::SIGHUP), handler);
}

#[test]
fn handlers_are_copied_then_independent() {
    let (mut sched, mut tables, mut init) = init_system();
    init.set_signal_handler(&mut tables, &Signal::SIGHUP, SignalHandler::Ignore);
    let res = init.fork(&mut sched, &mut tables, 1, ForkOptions::default(), resources());
    assert_eq!(res, Ok(2));
    let child = sched.take(2).unwrap();
    assert_eq!(child.get_signal_handler(&tables, &Signal::SIGHUP), SignalHandler::Ignore);
    init.set_signal_handler(&mut tables, &Signal::SIGHUP, SignalHandler::Default);
    assert_eq!(child.get_signal_handler(&tables, &Signal::SIGHUP), SignalHandler::Ignore);

    // The table of a process that disappeared is used again, without its content
    child.drop(&mut tables);
    let again = ForkResources { pid: Ok(3), ..resources() };
    assert_eq!(init.fork(&mut sched, &mut tables, 1, ForkOptions::default(), again), Ok(3));
    let child = sched.take(3).unwrap();
    assert_eq!(child.get_signal_handler(&tables, &Signal::SIGHUP), SignalHandler::Default);
}

#[test]
fn fork_fails_with_first_error() {
    let (mut sched, mut tables, mut init) = init_system();
    let fail = |errno, mem_space| {
        let given_up = References { mem_space, file_descriptors: None };
        Err(ForkFailure { errno, release: None, given_up })
    };
    let options = ForkOptions { vfork: true, ..ForkOptions::default() };
    let bad = ForkResources {
        pid: Err(11),
        kernel_stack: Err(12),
        mem_space: Err(13),
        file_descriptors: Err(14),
        procfs: Err(15),
    };
    assert_eq!(init.fork(&mut sched, &mut tables, 1, options, bad), fail(11, None));
    assert!(init.can_run());
    let bad = ForkResources { kernel_stack: Err(12), procfs: Err(15), ..resources() };
    assert_eq!(init.fork(&mut sched, &mut tables, 1, options, bad), fail(12, None));
    assert!(!init.can_run());
    let bad = ForkResources { mem_space: Err(13), file_descriptors: Err(14), ..resources() };
    let res = init.fork(&mut sched, &mut tables, 1, ForkOptions::default(), bad);
    assert_eq!(res, fail(13, None));
    let bad = ForkResources { file_descriptors: Err(14), procfs: Err(15), ..resources() };
    let res = init.fork(&mut sched, &mut tables, 1, ForkOptions::default(), bad);
    assert_eq!(res, fail(14, Some(8)));
    let bad = ForkResources { file_descriptors: Err(14), procfs: Err(15), ..resources() };
    assert_eq!(init.fork(&mut sched, &mut tables, 1, options, bad), fail(14, Some(7)));
    assert!(sched.pids().is_empty());
    assert!(init.get_children().is_empty());
}

#[test]
fn fork_that_cannot_be_registered_is_undone() {
    let (mut sched, mut tables, mut init) = init_system();
    let options = ForkOptions { share_memory: true, ..ForkOptions::default() };
    let bad = ForkResources { procfs: Err(15), ..resources() };
    let stack = StackUnmapping { mem_space: 7, stack: 0x8000, pages: 64 };
    let given_up = References { mem_space: Some(7), file_descriptors: Some(4) };
    let release = Release { pid: 2, kernel_stack: Some(stack), given_up };
    let expected =
        ForkFailure { errno: 15, release: Some(release), given_up: References::none() };
    let res = init.fork(&mut sched, &mut tables, 1, options, bad);
    assert_eq!(res, Err(expected));
    assert!(!sched.contains(2));
    assert!(!init.has_child(2));
}

#[test]
fn disappearing_process_releases_its_stack() {
    let (mut sched, mut tables, mut init) = init_system();
    let res = init.fork(&mut sched, &mut tables, 1, ForkOptions::default(), resources());
    assert_eq!(res, Ok(2));
    let child = sched.take(2).unwrap();
    let given_up = References { mem_space: Some(8), file_descriptors: Some(4) };
    assert_eq!(child.drop(&mut tables), Release { pid: 2, kernel_stack: None, given_up });
    let options = ForkOptions { share_memory: true, ..ForkOptions::default() };
    assert_eq!(init.fork(&mut sched, &mut tables, 1, options, resources()), Ok(2));
    let child = sched.take(2).unwrap();
    let stack = StackUnmapping { mem_space: 7, stack: 0x8000, pages: 64 };
    assert!(child.has_handlers(&tables) && child.can_share_handlers(&tables));
    let given_up = References { mem_space: Some(7), file_descriptors: Some(4) };
    let expected = Release { pid: 2, kernel_stack: Some(stack), given_up };
    assert_eq!(child.drop(&mut tables), expected);
    assert!(!HandlerTables::new().is_in_use(0));
}

#[test]
fn last_holder_frees() {
    let (mut sched, mut tables, mut init) = init_system();
    let options = ForkOptions { share_memory: true, share_fd: true, ..ForkOptions::default() };
    assert_eq!(init.fork(&mut sched, &mut tables, 1, options, resources()), Ok(2));
    let held = init.get_references();
    assert_eq!(held, References { mem_space: Some(7), file_descriptors: Some(3) });

    // The child still holds what the parent gives up
    init.set_mem_space(Some(9));
    init.set_fds(None);
    sched.put(init);
    assert!(sched.holds_mem_space(7) && sched.holds_fds(3) && sched.holds_mem_space(9));
    assert_eq!(sched.get_unheld(held), References::none());

    // Nobody holds it once the child has disappeared
    let child = sched.take(2).unwrap();
    let release = child.drop(&mut tables);
    assert_eq!(sched.get_unheld(release.given_up), held);
    assert!(!sched.holds_mem_space(7) && !sched.holds_fds(3));
}

#[test]
fn failed_fork_frees_copies_only() {
    let (mut sched, mut tables, mut init) = init_system();
    let none = ForkOptions::default();
    let bad = ForkResources { procfs: Err(15), ..resources() };
    let copied = init.fork(&mut sched, &mut tables, 1, none, bad).unwrap_err();
    let options = ForkOptions { share_memory: true, share_fd: true, ..none };
    let bad = ForkResources { procfs: Err(15), ..resources() };
    let shared = init.fork(&mut sched, &mut tables, 1, options, bad).unwrap_err();
    sched.put(init);
    let copies = References { mem_space: Some(8), file_descriptors: Some(4) };
    assert_eq!(sched.get_unheld(copied.release.unwrap().given_up), copies);
    assert_eq!(sched.get_unheld(shared.release.unwrap().given_up), References::none());
}

#[test]
fn processes_are_found() {
    let (mut sched, mut tables, mut init) = init_system();
    init.fork(&mut sched, &mut tables, 1, ForkOptions::default(), resources()).unwrap();
    sched.put(init);
    assert_eq!(sched.pids(), vec![1, 2]);
    assert_eq!(Process::get_by_pid(&sched, 2).unwrap().get_pid(), 2);
    assert!(Process::get_by_pid(&sched, 3).is_none());
    assert_eq!(Process::get_by_tid(&sched, 1).unwrap().get_pid(), 1);
    assert!(Process::get_by_tid(&sched, 3).is_none());
    assert!(Process::get_current(&sched).is_none());
    sched.set_current_pid(Some(2));
    assert_eq!(Process::get_current(&sched).unwrap().get_pid(), 2);
    sched.set_current_pid(Some(3));
    assert!(Process::get_current(&sched).is_none());
    assert!(sched.contains(1) && !sched.contains(3));
}
