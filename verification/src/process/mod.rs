//! A process is a task running on the kernel. A multitasking system allows
//! several processes to run at the same time by sharing the CPU resources
//! using a scheduler.
//!
//! A process that is being worked on is taken out of the scheduler: operations
//! on a process that reach other processes receive the scheduler, which then
//! holds those other processes.

use vstd::prelude::*;

use crate::bitfield::Bitfield;
use crate::errno::Errno;
use crate::file::{FdTableId, Gid, Mode, TTYHandle, Uid, ROOT_UID};
use crate::gdt::Entry;
use crate::memory::{Address, MemSpaceId};
use crate::path::{Name, Path, PathView};
use crate::pid_list::{sorted, strictly_sorted, Pid, INIT_PID};
use crate::process::regs::{RUsage, Regs};
use crate::process::state::{State, VForkState};
use crate::scheduler::Scheduler;
use crate::signal::{Signal, SIGNALS_COUNT};

pub use crate::process::fork::ForkOptions;

pub mod family;
pub mod fork;
pub mod holders;
pub mod regs;
pub mod signals;
pub mod state;
pub mod switch;

verus! {

/// The default file creation mask.
pub const DEFAULT_UMASK: Mode = 0o022;

/// The number of TLS entries per process.
pub const TLS_ENTRIES_COUNT: usize = 3;

/// The exit status of a process.
pub type ExitStatus = u8;

/// The Process Control Block (PCB). This structure stores all the information
/// about a process.
#[derive(Debug)]
pub struct Process {
    /// The ID of the process.
    pid: Pid,
    /// The ID of the process group.
    pgid: Pid,
    /// The thread ID of the process.
    tid: Pid,
    /// The argv of the process.
    argv: Vec<Name>,
    /// The path to the process's executable.
    exec_path: Path,
    /// The process's current TTY.
    tty: TTYHandle,
    /// The real ID of the process's user owner.
    uid: Uid,
    /// The real ID of the process's group owner.
    gid: Gid,
    /// The effective ID of the process's user owner.
    euid: Uid,
    /// The effective ID of the process's group owner.
    egid: Gid,
    /// The saved user ID of the process's owner.
    suid: Uid,
    /// The saved group ID of the process's owner.
    sgid: Gid,
    /// The process's current umask.
    umask: Mode,
    /// The current state of the process.
    state: State,
    /// The current vfork state of the process.
    vfork_state: VForkState,
    /// The priority of the process.
    priority: usize,
    /// The nice value of the process.
    nice: usize,
    /// The number of quantum run during the cycle.
    quantum_count: usize,
    /// The ID of the parent process.
    parent: Option<Pid>,
    /// The list of children processes.
    children: Vec<Pid>,
    /// The list of the processes that joined the group of this process by
    /// `set_pgid`.
    process_group: Vec<Pid>,
    /// The last saved registers state.
    regs: Regs,
    /// Tells whether the process was syscalling or not.
    syscalling: bool,
    /// The signal that the process is handling.
    handled_signal: Option<Signal>,
    /// The saved state of registers, used when handling a signal.
    saved_regs: Regs,
    /// Tells whether the process has information that can be retrieved by
    /// wait/waitpid.
    waitable: bool,
    /// The virtual memory of the process, containing every mapping.
    mem_space: Option<MemSpaceId>,
    /// The userspace stack.
    user_stack: Option<Address>,
    /// The kernelspace stack.
    kernel_stack: Option<Address>,
    /// The current working directory.
    cwd: Path,
    /// The current chroot path.
    chroot: Path,
    /// The table of open file descriptors.
    file_descriptors: Option<FdTableId>,
    /// The set of blocked signals.
    sigmask: Bitfield,
    /// The set of pending signals.
    sigpending: Bitfield,
    /// The index of the table of signal handlers.
    signal_handlers: usize,
    /// TLS entries.
    tls_entries: [Entry; TLS_ENTRIES_COUNT],
    /// Where the ID of the process is written when it starts, if anywhere.
    set_child_tid: Option<Address>,
    /// What is cleared when the process exits, if anything.
    clear_child_tid: Option<Address>,
    /// The process's resources usage.
    rusage: RUsage,
    /// The exit status of the process after exiting.
    exit_status: ExitStatus,
    /// The terminating signal.
    termsig: u8,
}

/// The information that a process control block holds.
#[verifier::ext_equal]
pub struct ProcessView {
    pub pid: Pid,
    pub pgid: Pid,
    pub tid: Pid,
    pub argv: Seq<Seq<u8>>,
    pub exec_path: PathView,
    pub tty: TTYHandle,
    pub uid: Uid,
    pub gid: Gid,
    pub euid: Uid,
    pub egid: Gid,
    pub suid: Uid,
    pub sgid: Gid,
    pub umask: Mode,
    pub state: State,
    pub vfork_state: VForkState,
    pub priority: usize,
    pub nice: usize,
    pub quantum_count: usize,
    pub parent: Option<Pid>,
    pub children: Seq<Pid>,
    pub process_group: Seq<Pid>,
    pub regs: Regs,
    pub syscalling: bool,
    pub handled_signal: Option<Signal>,
    pub saved_regs: Regs,
    pub waitable: bool,
    pub mem_space: Option<MemSpaceId>,
    pub user_stack: Option<Address>,
    pub kernel_stack: Option<Address>,
    pub cwd: PathView,
    pub chroot: PathView,
    pub file_descriptors: Option<FdTableId>,
    pub sigmask: Seq<bool>,
    pub sigpending: Seq<bool>,
    pub signal_handlers: usize,
    pub tls_entries: Seq<Entry>,
    pub set_child_tid: Option<Address>,
    pub clear_child_tid: Option<Address>,
    pub rusage: RUsage,
    pub exit_status: ExitStatus,
    pub termsig: u8,
}

impl View for Process {
    type V = ProcessView;

    closed spec fn view(&self) -> ProcessView {
        ProcessView {
            pid: self.pid,
            pgid: self.pgid,
            tid: self.tid,
            argv: self.argv.deep_view(),
            exec_path: self.exec_path@,
            tty: self.tty,
            uid: self.uid,
            gid: self.gid,
            euid: self.euid,
            egid: self.egid,
            suid: self.suid,
            sgid: self.sgid,
            umask: self.umask,
            state: self.state,
            vfork_state: self.vfork_state,
            priority: self.priority,
            nice: self.nice,
            quantum_count: self.quantum_count,
            parent: self.parent,
            children: self.children@,
            process_group: self.process_group@,
            regs: self.regs,
            syscalling: self.syscalling,
            handled_signal: self.handled_signal,
            saved_regs: self.saved_regs,
            waitable: self.waitable,
            mem_space: self.mem_space,
            user_stack: self.user_stack,
            kernel_stack: self.kernel_stack,
            cwd: self.cwd@,
            chroot: self.chroot@,
            file_descriptors: self.file_descriptors,
            sigmask: self.sigmask@,
            sigpending: self.sigpending@,
            signal_handlers: self.signal_handlers,
            tls_entries: self.tls_entries@,
            set_child_tid: self.set_child_tid,
            clear_child_tid: self.clear_child_tid,
            rusage: self.rusage,
            exit_status: self.exit_status,
            termsig: self.termsig,
        }
    }
}

impl ProcessView {
    /// The shape of a process control block: a process is its own only thread,
    /// its lists are in order and it has one bit per signal ID in each of its
    /// masks.
    pub open spec fn wf(self) -> bool {
        &&& self.tid == self.pid
        &&& sorted(self.children)
        &&& strictly_sorted(self.process_group)
        &&& self.sigmask.len() == SIGNALS_COUNT
        &&& self.sigpending.len() == SIGNALS_COUNT
        &&& self.tls_entries.len() == TLS_ENTRIES_COUNT
    }

    /// The process is the init process.
    pub open spec fn is_init(self) -> bool {
        self.pid == INIT_PID
    }

    /// The process is among a group and is not its owner.
    pub open spec fn in_group(self) -> bool {
        self.pgid != 0 && self.pgid != self.pid
    }

    /// The scheduler can run the process.
    pub open spec fn can_run(self) -> bool {
        self.state == State::Running && self.vfork_state != VForkState::Waiting
    }
}

impl Process {
    /// The masks of the process are well-formed bit fields.
    pub closed spec fn masks_wf(&self) -> bool {
        self.sigmask.wf() && self.sigpending.wf()
    }

    /// The process control block is well formed.
    pub open spec fn wf(&self) -> bool {
        self.masks_wf() && self@.wf()
    }

    /// Tells whether the process is the init process.
    pub fn is_init(&self) -> (res: bool)
        ensures
            res == self@.is_init(),
    {
        self.get_pid() == INIT_PID
    }

    /// Returns the process's PID.
    pub fn get_pid(&self) -> (res: Pid)
        ensures
            res == self@.pid,
    {
        self.pid
    }

    /// Tells whether the process is among a group and is not its owner.
    pub fn is_in_group(&self) -> (res: bool)
        ensures
            res == self@.in_group(),
    {
        self.pgid != 0 && self.pgid != self.pid
    }

    /// Returns the process's group ID.
    pub fn get_pgid(&self) -> (res: Pid)
        ensures
            res == self@.pgid,
    {
        self.pgid
    }

    /// Returns the process's thread ID.
    pub fn get_tid(&self) -> (res: Pid)
        ensures
            res == self@.tid,
    {
        self.tid
    }

    /// Returns a reference to the list of PIDs of processes that joined the
    /// group of this process by `set_pgid`.
    pub fn get_joined_processes(&self) -> (res: &Vec<Pid>)
        ensures
            res@ == self@.process_group,
    {
        &self.process_group
    }

    /// Tells whether the process is in an orphaned process group, that is, a
    /// group whose owner no longer exists.
    pub fn is_in_orphan_process_group(&self, sched: &Scheduler) -> (res: bool)
        ensures
            res == (self@.in_group() && !sched@.contains_key(self@.pgid)),
    {
        if !self.is_in_group() {
            return false;
        }
        !sched.contains(self.pgid)
    }

    /// Returns the parent process's PID. A process without a parent is its own.
    pub fn get_parent_pid(&self) -> (res: Pid)
        ensures
            res == (match self@.parent {
                Some(parent) => parent,
                None => self@.pid,
            }),
    {
        match self.parent {
            Some(parent) => parent,
            None => self.get_pid(),
        }
    }

    /// Returns the argv of the process.
    pub fn get_argv(&self) -> (res: &Vec<Name>)
        ensures
            res.deep_view() == self@.argv,
    {
        &self.argv
    }

    /// Sets the argv of the process.
    pub fn set_argv(&mut self, argv: Vec<Name>)
        ensures
            old(self).wf() ==> final(self).wf(),
            final(self)@ == (ProcessView { argv: argv.deep_view(), ..old(self)@ }),
    {
        self.argv = argv;
    }

    /// Returns the path to the executable file of the process.
    pub fn get_exec_path(&self) -> (res: &Path)
        ensures
            res@ == self@.exec_path,
    {
        &self.exec_path
    }

    /// Returns the TTY associated with the process.
    pub fn get_tty(&self) -> (res: TTYHandle)
        ensures
            res == self@.tty,
    {
        self.tty
    }

    /// Returns the process's real user owner ID.
    pub fn get_uid(&self) -> (res: Uid)
        ensures
            res == self@.uid,
    {
        self.uid
    }

    /// Sets the process's real user owner ID.
    pub fn set_uid(&mut self, uid: Uid)
        ensures
            old(self).wf() ==> final(self).wf(),
            final(self)@ == (ProcessView { uid, ..old(self)@ }),
    {
        self.uid = uid;
    }

    /// Returns the process's real group owner ID.
    pub fn get_gid(&self) -> (res: Gid)
        ensures
            res == self@.gid,
    {
        self.gid
    }

    /// Sets the process's real group owner ID.
    pub fn set_gid(&mut self, gid: Gid)
        ensures
            old(self).wf() ==> final(self).wf(),
            final(self)@ == (ProcessView { gid, ..old(self)@ }),
    {
        self.gid = gid;
    }

    /// Returns the process's effective user owner ID.
    pub fn get_euid(&self) -> (res: Uid)
        ensures
            res == self@.euid,
    {
        self.euid
    }

    /// Sets the process's effective user owner ID.
    pub fn set_euid(&mut self, euid: Uid)
        ensures
            old(self).wf() ==> final(self).wf(),
            final(self)@ == (ProcessView { euid, ..old(self)@ }),
    {
        self.euid = euid;
    }

    /// Returns the process's effective group owner ID.
    pub fn get_egid(&self) -> (res: Gid)
        ensures
            res == self@.egid,
    {
        self.egid
    }

    /// Sets the process's effective group owner ID.
    pub fn set_egid(&mut self, egid: Gid)
        ensures
            old(self).wf() ==> final(self).wf(),
            final(self)@ == (ProcessView { egid, ..old(self)@ }),
    {
        self.egid = egid;
    }

    /// Returns the process's saved user owner ID.
    pub fn get_suid(&self) -> (res: Uid)
        ensures
            res == self@.suid,
    {
        self.suid
    }

    /// Sets the process's saved user owner ID.
    pub fn set_suid(&mut self, suid: Uid)
        ensures
            old(self).wf() ==> final(self).wf(),
            final(self)@ == (ProcessView { suid, ..old(self)@ }),
    {
        self.suid = suid;
    }

    /// Returns the process's saved group owner ID.
    pub fn get_sgid(&self) -> (res: Gid)
        ensures
            res == self@.sgid,
    {
        self.sgid
    }

    /// Sets the process's saved group owner ID.
    pub fn set_sgid(&mut self, sgid: Gid)
        ensures
            old(self).wf() ==> final(self).wf(),
            final(self)@ == (ProcessView { sgid, ..old(self)@ }),
    {
        self.sgid = sgid;
    }

    /// Returns the file creation mask.
    pub fn get_umask(&self) -> (res: Mode)
        ensures
            res == self@.umask,
    {
        self.umask
    }

    /// Sets the file creation mask.
    pub fn set_umask(&mut self, umask: Mode)
        ensures
            old(self).wf() ==> final(self).wf(),
            final(self)@ == (ProcessView { umask, ..old(self)@ }),
    {
        self.umask = umask;
    }

    /// Returns the process's current state.
    pub fn get_state(&self) -> (res: &State)
        ensures
            *res == self@.state,
    {
        &self.state
    }

    /// Tells whether the scheduler can run the process.
    pub fn can_run(&self) -> (res: bool)
        ensures
            res == self@.can_run(),
    {
        self.state == State::Running && self.vfork_state != VForkState::Waiting
    }

    /// Tells whether the current process has information to be retrieved by the
    /// `waitpid` system call.
    pub fn is_waitable(&self) -> (res: bool)
        ensures
            res == self@.waitable,
    {
        self.waitable
    }

    /// Returns the priority of the process. A greater number means a higher
    /// priority relative to other processes.
    pub fn get_priority(&self) -> (res: usize)
        ensures
            res == self@.priority,
    {
        self.priority
    }

    /// Returns the nice value of the process.
    pub fn get_nice(&self) -> (res: usize)
        ensures
            res == self@.nice,
    {
        self.nice
    }

    /// Returns the ID of the process's parent, if it has one.
    pub fn get_parent(&self) -> (res: Option<Pid>)
        ensures
            res == self@.parent,
    {
        self.parent
    }

    /// Returns a reference to the list of the process's children.
    pub fn get_children(&self) -> (res: &Vec<Pid>)
        ensures
            res@ == self@.children,
    {
        &self.children
    }

    /// Returns a reference to the process's current working directory.
    pub fn get_cwd(&self) -> (res: &Path)
        ensures
            res@ == self@.cwd,
    {
        &self.cwd
    }

    /// Sets the process's current working directory.
    /// If the given path is relative, it is made absolute by being concatenated
    /// to `/`.
    pub fn set_cwd(&mut self, path: Path) -> (res: Result<(), Errno>)
        ensures
            old(self).wf() ==> final(self).wf(),
            final(self)@ == (ProcessView {
                cwd: PathView { absolute: true, parts: path@.parts },
                ..old(self)@
            }),
            res == Ok::<(), Errno>(()),
    {
        self.cwd = Path::root().concat(&path);
        assert(Seq::<Seq<u8>>::empty() + path@.parts =~= path@.parts);
        Ok(())
    }

    /// Returns the path to the root directory of the current process (chroot
    /// path).
    pub fn get_chroot(&self) -> (res: &Path)
        ensures
            res@ == self@.chroot,
    {
        &self.chroot
    }

    /// Sets the path to the root directory of the current process (chroot
    /// path).
    pub fn set_chroot(&mut self, path: Path)
        ensures
            old(self).wf() ==> final(self).wf(),
            final(self)@ == (ProcessView { chroot: path@, ..old(self)@ }),
    {
        self.chroot = path;
    }

    /// Returns the file descriptor table associated with the process.
    pub fn get_fds(&self) -> (res: Option<FdTableId>)
        ensures
            res == self@.file_descriptors,
    {
        self.file_descriptors
    }

    /// Sets the file descriptor table of the process.
    pub fn set_fds(&mut self, fds: Option<FdTableId>)
        ensures
            old(self).wf() ==> final(self).wf(),
            final(self)@ == (ProcessView { file_descriptors: fds, ..old(self)@ }),
    {
        self.file_descriptors = fds;
    }

    /// Returns the process's saved state registers.
    pub fn get_regs(&self) -> (res: &Regs)
        ensures
            *res == self@.regs,
    {
        &self.regs
    }

    /// Sets the process's saved state registers.
    pub fn set_regs(&mut self, regs: Regs)
        ensures
            old(self).wf() ==> final(self).wf(),
            final(self)@ == (ProcessView { regs, ..old(self)@ }),
    {
        self.regs = regs;
    }

    /// Tells whether the process was syscalling before being interrupted.
    pub fn is_syscalling(&self) -> (res: bool)
        ensures
            res == self@.syscalling,
    {
        self.syscalling
    }

    /// Sets the process's syscalling state.
    pub fn set_syscalling(&mut self, syscalling: bool)
        ensures
            old(self).wf() ==> final(self).wf(),
            final(self)@ == (ProcessView { syscalling, ..old(self)@ }),
    {
        self.syscalling = syscalling;
    }

    /// Returns the exit status if the process has ended.
    pub fn get_exit_status(&self) -> (res: Option<ExitStatus>)
        ensures
            res == (if self@.state == State::Zombie {
                Some(self@.exit_status)
            } else {
                None
            }),
    {
        if self.state == State::Zombie {
            Some(self.exit_status)
        } else {
            None
        }
    }

    /// Returns the signal number that killed the process.
    pub fn get_termsig(&self) -> (res: u8)
        ensures
            res == self@.termsig,
    {
        self.termsig
    }

    /// Sets the `clear_child_tid` attribute of the process.
    pub fn set_clear_child_tid(&mut self, ptr: Option<Address>)
        ensures
            old(self).wf() ==> final(self).wf(),
            final(self)@ == (ProcessView { clear_child_tid: ptr, ..old(self)@ }),
    {
        self.clear_child_tid = ptr;
    }

    /// Returns an immutable reference to the process's resource usage
    /// structure.
    pub fn get_rusage(&self) -> (res: &RUsage)
        ensures
            *res == self@.rusage,
    {
        &self.rusage
    }

    /// Tells whether the given user ID has the permission to kill the current
    /// process.
    pub fn can_kill(&self, uid: Uid) -> (res: bool)
        ensures
            res == (uid == ROOT_UID || uid == self@.uid),
    {
        uid == ROOT_UID || uid == self.uid
    }

    /// Returns the OOM score, used by the OOM killer to determine the process
    /// to kill in case the system runs out of memory. A higher score means a
    /// higher probability of getting killed.
    pub fn get_oom_score(&self) -> (res: u16)
        ensures
            res == 0,
    {
        let mut score: u16 = 0;

        // If the process is owned by the superuser, give it a bonus
        if self.uid == ROOT_UID {
            score = score.saturating_sub(100);
        }
        score
    }

    /// Returns the process with PID `pid`. If the process doesn't exist, the
    /// function returns None.
    pub fn get_by_pid(sched: &Scheduler, pid: Pid) -> (res: Option<&Process>)
        requires
            sched.wf(),
        ensures
            match res {
                Some(p) => sched@.contains_key(pid) && p@ == sched@[pid] && p.wf(),
                None => !sched@.contains_key(pid),
            },
    {
        sched.get_by_pid(pid)
    }

    /// Returns the process with TID `tid`. If the process doesn't exist, the
    /// function returns None.
    pub fn get_by_tid(sched: &Scheduler, tid: Pid) -> (res: Option<&Process>)
        requires
            sched.wf(),
        ensures
            match res {
                Some(p) => {
                    &&& sched@.contains_key(p@.pid)
                    &&& p@ == sched@[p@.pid]
                    &&& p@.tid == tid
                    &&& p.wf()
                },
                None => forall|pid: Pid| #[trigger]
                    sched@.contains_key(pid) ==> sched@[pid].tid != tid,
            },
    {
        sched.get_by_tid(tid)
    }

    /// Returns the current running process. If no process is running, the
    /// function returns None.
    pub fn get_current(sched: &Scheduler) -> (res: Option<&Process>)
        requires
            sched.wf(),
        ensures
            match res {
                Some(p) => {
                    &&& sched.current() matches Some(pid)
                    &&& sched@.contains_key(pid)
                    &&& p@ == sched@[pid]
                    &&& p.wf()
                },
                None => sched.current() matches Some(pid) ==> !sched@.contains_key(pid),
            },
    {
        sched.get_current_process()
    }
}

} // verus!
