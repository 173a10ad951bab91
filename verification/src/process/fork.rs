//! The creation of processes, and what is left to be freed at their end.

use vstd::prelude::*;

use crate::bitfield::Bitfield;
use crate::errno::Errno;
use crate::file::{FdTableId, TTYHandle, ROOT_GID, ROOT_UID};
use crate::memory::{
    Address, MemSpaceId, StackMapping, MAPPING_FLAG_NOLAZY, MAPPING_FLAG_USER, MAPPING_FLAG_WRITE,
};
use crate::path::{duplicate_names, Path, PathView};
use crate::pid_list::{with_pid, Pid, INIT_PID};
use crate::process::holders::References;
use crate::process::regs::{RUsage, Regs};
use crate::process::state::{State, VForkState};
use crate::process::{Process, ProcessView, DEFAULT_UMASK, TLS_ENTRIES_COUNT};
use crate::scheduler::Scheduler;
use crate::signal::{
    added, default_handlers, with_users, HandlerTableView, HandlerTables, SIGNALS_COUNT,
};

verus! {

/// The size of the userspace stack of a process in number of pages.
pub const USER_STACK_SIZE: usize = 2048;

/// The flags for the userspace stack mapping.
pub const USER_STACK_FLAGS: u8 = MAPPING_FLAG_WRITE | MAPPING_FLAG_USER;

/// The size of the kernelspace stack of a process in number of pages.
pub const KERNEL_STACK_SIZE: usize = 64;

/// The flags for the kernelspace stack mapping.
pub const KERNEL_STACK_FLAGS: u8 = MAPPING_FLAG_WRITE | MAPPING_FLAG_NOLAZY;

/// Options to be passed to the fork function.
#[derive(Clone, Copy, Debug, PartialEq, Eq, Structural)]
pub struct ForkOptions {
    /// If true, the parent and child processes both share the same address
    /// space.
    pub share_memory: bool,
    /// If true, the parent and child processes both share the same file
    /// descriptors table.
    pub share_fd: bool,
    /// If true, the parent and child processes both share the same signal
    /// handlers table.
    pub share_sighand: bool,
    /// If true, the parent is stopped until the child process exits or executes
    /// a program.
    pub vfork: bool,
}

impl Default for ForkOptions {
    fn default() -> (res: Self)
        ensures
            res == (ForkOptions {
                share_memory: false,
                share_fd: false,
                share_sighand: false,
                vfork: false,
            }),
    {
        Self { share_memory: false, share_fd: false, share_sighand: false, vfork: false }
    }
}

impl ForkOptions {
    /// The child uses the memory space of its parent.
    pub open spec fn shares_memory(self) -> bool {
        self.share_memory || self.vfork
    }
}

/// What is to be done in memory before a fork.
#[derive(Clone, Copy, Debug, PartialEq, Eq, Structural)]
pub enum MemoryRequest {
    /// Map a stack into the memory space.
    MapStack(MemSpaceId, StackMapping),
    /// Make a copy of the memory space.
    Fork(MemSpaceId),
}

/// What is to be done with file descriptors before a fork.
#[derive(Clone, Copy, Debug, PartialEq, Eq, Structural)]
pub enum FdRequest {
    /// Nothing: the table is shared, or there is none.
    Keep,
    /// Make a copy of the table.
    Duplicate(FdTableId),
}

/// The resources for a new process, each with the error that prevented getting
/// it. Those that the fork does not ask for are not looked at.
#[derive(Debug)]
pub struct ForkResources {
    /// An ID that no process uses.
    pub pid: Result<Pid, Errno>,
    /// The new stack, if the memory space is shared.
    pub kernel_stack: Result<Address, Errno>,
    /// The copy of the memory space, if it is not shared.
    pub mem_space: Result<MemSpaceId, Errno>,
    /// The copy of the file descriptors table, if it is not shared.
    pub file_descriptors: Result<FdTableId, Errno>,
    /// The registration of the new process in the procfs.
    pub procfs: Result<(), Errno>,
}

/// A stack to be unmapped from a memory space.
#[derive(Clone, Copy, Debug, PartialEq, Eq, Structural)]
pub struct StackUnmapping {
    pub mem_space: MemSpaceId,
    pub stack: Address,
    pub pages: usize,
}

/// What has to be freed when a process disappears. Its table of signal handlers
/// is not part of it: the tables count their users themselves.
#[derive(Clone, Copy, Debug, PartialEq, Eq, Structural)]
pub struct Release {
    /// The ID, to be removed from the procfs, then released.
    pub pid: Pid,
    /// The kernel stack, to be unmapped from a memory space. This is required
    /// because the memory space might be shared with other processes, each of
    /// which has its own kernel stack.
    pub kernel_stack: Option<StackUnmapping>,
    /// The memory space and the file descriptors table, each to be freed unless
    /// another process holds it.
    pub given_up: References,
}

/// A fork that failed.
#[derive(Clone, Copy, Debug, PartialEq, Eq, Structural)]
pub struct ForkFailure {
    /// The error.
    pub errno: Errno,
    /// What has to be freed, if the new process existed already.
    pub release: Option<Release>,
    /// What was had for the new process before it existed, each to be freed
    /// unless another process holds it.
    pub given_up: References,
}

impl ForkResources {
    /// The error of the memory work, if it failed.
    pub open spec fn memory_error(self, options: ForkOptions) -> Option<Errno> {
        if options.shares_memory() {
            match self.kernel_stack {
                Ok(_) => None,
                Err(e) => Some(e),
            }
        } else {
            match self.mem_space {
                Ok(_) => None,
                Err(e) => Some(e),
            }
        }
    }

    /// The error of the work on the file descriptors of `p`, if it failed.
    pub open spec fn fd_error(self, p: ProcessView, options: ForkOptions) -> Option<Errno> {
        if options.share_fd || p.file_descriptors is None {
            None
        } else {
            match self.file_descriptors {
                Ok(_) => None,
                Err(e) => Some(e),
            }
        }
    }
}

impl ProcessView {
    /// The init process as it is created.
    pub open spec fn init(tty: TTYHandle, fds: FdTableId, handlers: usize) -> ProcessView {
        ProcessView {
            pid: INIT_PID,
            pgid: INIT_PID,
            tid: INIT_PID,
            argv: Seq::empty(),
            exec_path: PathView::root(),
            tty,
            uid: ROOT_UID,
            gid: ROOT_GID,
            euid: ROOT_UID,
            egid: ROOT_GID,
            suid: ROOT_UID,
            sgid: ROOT_GID,
            umask: DEFAULT_UMASK,
            state: State::Running,
            vfork_state: VForkState::Inactive,
            priority: 0,
            nice: 0,
            quantum_count: 0,
            parent: None,
            children: Seq::empty(),
            process_group: Seq::empty(),
            regs: Regs::zero(),
            syscalling: false,
            handled_signal: None,
            saved_regs: Regs::zero(),
            waitable: false,
            mem_space: None,
            user_stack: None,
            kernel_stack: None,
            cwd: PathView::root(),
            chroot: PathView::root(),
            file_descriptors: Some(fds),
            sigmask: Seq::new(SIGNALS_COUNT as nat, |i: int| false),
            sigpending: Seq::new(SIGNALS_COUNT as nat, |i: int| false),
            signal_handlers: handlers,
            tls_entries: Seq::new(TLS_ENTRIES_COUNT as nat, |i: int| 0u64),
            set_child_tid: None,
            clear_child_tid: None,
            rusage: RUsage { ru_nsignals: 0 },
            exit_status: 0,
            termsig: 0,
        }
    }

    /// The child of this process that a fork creates with the given resources.
    pub open spec fn child(
        self,
        parent: Pid,
        options: ForkOptions,
        resources: ForkResources,
        handlers: usize,
    ) -> ProcessView {
        let pid = resources.pid->Ok_0;
        ProcessView {
            pid,
            tid: pid,
            state: State::Running,
            vfork_state: if options.vfork {
                VForkState::Executing
            } else {
                VForkState::Inactive
            },
            quantum_count: 0,
            parent: Some(parent),
            children: Seq::empty(),
            process_group: Seq::empty(),
            syscalling: false,
            waitable: false,
            mem_space: if options.shares_memory() {
                self.mem_space
            } else {
                Some(resources.mem_space->Ok_0)
            },
            kernel_stack: if options.shares_memory() {
                Some(resources.kernel_stack->Ok_0)
            } else {
                self.kernel_stack
            },
            file_descriptors: if options.share_fd || self.file_descriptors is None {
                self.file_descriptors
            } else {
                Some(resources.file_descriptors->Ok_0)
            },
            sigpending: Seq::new(SIGNALS_COUNT as nat, |i: int| false),
            signal_handlers: handlers,
            rusage: RUsage { ru_nsignals: 0 },
            termsig: 0,
            ..self
        }
    }

    /// The parent while a fork is under way: the parent of a vfork child waits.
    pub open spec fn forking(self, options: ForkOptions) -> ProcessView {
        if options.vfork {
            ProcessView { vfork_state: VForkState::Waiting, ..self }
        } else {
            self
        }
    }

    /// What has to be freed when the process disappears.
    pub open spec fn release(self) -> Release {
        Release {
            pid: self.pid,
            given_up: self.references(),
            kernel_stack: match (self.mem_space, self.kernel_stack) {
                (Some(mem_space), Some(stack)) => Some(
                    StackUnmapping { mem_space, stack, pages: KERNEL_STACK_SIZE },
                ),
                _ => None,
            },
        }
    }
}

/// The failure of a fork of `p`, if it fails.
pub open spec fn fork_failure(
    p: ProcessView,
    parent: Pid,
    options: ForkOptions,
    resources: ForkResources,
) -> Option<ForkFailure> {
    if resources.pid is Err {
        Some(
            ForkFailure {
                errno: resources.pid->Err_0,
                release: None,
                given_up: References::empty(),
            },
        )
    } else if resources.memory_error(options) is Some {
        Some(
            ForkFailure {
                errno: resources.memory_error(options)->0,
                release: None,
                given_up: References::empty(),
            },
        )
    } else if resources.fd_error(p, options) is Some {
        Some(
            ForkFailure {
                errno: resources.fd_error(p, options)->0,
                release: None,
                given_up: References {
                    mem_space: p.child(parent, options, resources, 0).mem_space,
                    file_descriptors: None,
                },
            },
        )
    } else if resources.procfs is Err {
        Some(
            ForkFailure {
                errno: resources.procfs->Err_0,
                release: Some(p.child(parent, options, resources, 0).release()),
                given_up: References::empty(),
            },
        )
    } else {
        None
    }
}

/// The tables of signal handlers after a fork, in which the child uses the
/// table at index `handlers` and its parent that at index `table`.
pub open spec fn handlers_forked(
    before: Seq<HandlerTableView>,
    after: Seq<HandlerTableView>,
    table: int,
    handlers: int,
    options: ForkOptions,
) -> bool {
    if options.share_sighand {
        handlers == table && after == with_users(before, table, before[table].users + 1)
    } else {
        added(before, after, handlers, before[table].handlers)
    }
}

impl Process {
    /// Creates the init process and places it into the scheduler's queue.
    ///
    /// The process is set to state `Running` by default and has user root.
    /// `tty` is the init TTY. `fds` is the table of the process's file
    /// descriptors, in which the TTY's device file is open as the standard
    /// streams, or the error that prevented making it.
    pub fn new(
        sched: &mut Scheduler,
        tables: &mut HandlerTables,
        tty: TTYHandle,
        fds: Result<FdTableId, Errno>,
    ) -> (res: Result<Pid, Errno>)
        requires
            old(sched).wf(),
            old(tables).wf(),
            !old(sched)@.contains_key(INIT_PID),
        ensures
            final(sched).wf(),
            final(tables).wf(),
            final(sched).current() == old(sched).current(),
            match fds {
                Err(e) => {
                    &&& res == Err::<Pid, Errno>(e)
                    &&& final(sched)@ == old(sched)@
                    &&& final(tables)@ == old(tables)@
                },
                Ok(fds) => {
                    &&& res == Ok::<Pid, Errno>(INIT_PID)
                    &&& final(sched)@.contains_key(INIT_PID)
                    &&& ({
                        let handlers = final(sched)@[INIT_PID].signal_handlers;
                        &&& final(sched)@ == old(sched)@.insert(
                            INIT_PID,
                            ProcessView::init(tty, fds, handlers),
                        )
                        &&& added(
                            old(tables)@,
                            final(tables)@,
                            handlers as int,
                            default_handlers(),
                        )
                    })
                },
            },
    {
        let fds: FdTableId = match fds {
            Ok(fds) => fds,
            Err(e) => {
                return Err(e);
            },
        };
        let handlers: usize = tables.create();
        let process = Process {
            pid: INIT_PID,
            pgid: INIT_PID,
            tid: INIT_PID,
            argv: Vec::new(),
            exec_path: Path::root(),
            tty,
            uid: ROOT_UID,
            gid: ROOT_GID,
            euid: ROOT_UID,
            egid: ROOT_GID,
            suid: ROOT_UID,
            sgid: ROOT_GID,
            umask: DEFAULT_UMASK,
            state: State::Running,
            vfork_state: VForkState::Inactive,
            priority: 0,
            nice: 0,
            quantum_count: 0,
            parent: None,
            children: Vec::new(),
            process_group: Vec::new(),
            regs: Regs::default(),
            syscalling: false,
            handled_signal: None,
            saved_regs: Regs::default(),
            waitable: false,
            mem_space: None,
            user_stack: None,
            kernel_stack: None,
            cwd: Path::root(),
            chroot: Path::root(),
            file_descriptors: Some(fds),
            sigmask: Bitfield::new(SIGNALS_COUNT),
            sigpending: Bitfield::new(SIGNALS_COUNT),
            signal_handlers: handlers,
            tls_entries: [0u64; TLS_ENTRIES_COUNT],
            set_child_tid: None,
            clear_child_tid: None,
            rusage: RUsage::default(),
            exit_status: 0,
            termsig: 0,
        };
        assert(process.argv.deep_view() =~= Seq::<Seq<u8>>::empty());
        assert(process@ =~= ProcessView::init(tty, fds, handlers));
        Ok(sched.add_process(process))
    }

    /// Returns the memory work that a fork with the given options needs.
    pub fn fork_memory(&self, options: &ForkOptions) -> (res: MemoryRequest)
        requires
            self@.mem_space is Some,
        ensures
            res == (if options.shares_memory() {
                MemoryRequest::MapStack(
                    self@.mem_space->0,
                    StackMapping { pages: KERNEL_STACK_SIZE, flags: KERNEL_STACK_FLAGS },
                )
            } else {
                MemoryRequest::Fork(self@.mem_space->0)
            }),
    {
        let mem_space: MemSpaceId = self.mem_space.unwrap();
        if options.share_memory || options.vfork {
            MemoryRequest::MapStack(
                mem_space,
                StackMapping { pages: KERNEL_STACK_SIZE, flags: KERNEL_STACK_FLAGS },
            )
        } else {
            MemoryRequest::Fork(mem_space)
        }
    }

    /// Returns the work on file descriptors that a fork with the given options
    /// needs.
    pub fn fork_fds(&self, options: &ForkOptions) -> (res: FdRequest)
        ensures
            res == (match self@.file_descriptors {
                Some(fds) => if options.share_fd {
                    FdRequest::Keep
                } else {
                    FdRequest::Duplicate(fds)
                },
                None => FdRequest::Keep,
            }),
    {
        match self.file_descriptors {
            Some(fds) => if options.share_fd {
                FdRequest::Keep
            } else {
                FdRequest::Duplicate(fds)
            },
            None => FdRequest::Keep,
        }
    }

    /// Forks the current process, which must be running. The internal state of
    /// the process (registers and memory) are copied.
    /// `parent` is the parent of the new process.
    /// `options` are the options for the fork operation.
    /// `resources` are the results of the work that `fork_memory` and
    /// `fork_fds` ask for, with the ID for the new process and the result of
    /// its registration in the procfs.
    ///
    /// On success, the function returns the ID of the new process. On fail, it
    /// returns the error of the first resource that could not be had. If there
    /// was an ID for the new process, the parent of a vfork child waits even so,
    /// and the ID is released only if the new process existed already.
    pub fn fork(
        &mut self,
        sched: &mut Scheduler,
        tables: &mut HandlerTables,
        parent: Pid,
        options: ForkOptions,
        resources: ForkResources,
    ) -> (res: Result<Pid, ForkFailure>)
        requires
            old(self).wf(),
            old(sched).wf(),
            old(tables).wf(),
            old(self)@.state == State::Running,
            old(self)@.mem_space is Some,
            old(tables).in_use(old(self)@.signal_handlers),
            options.share_sighand ==> old(tables)@[old(self)@.signal_handlers as int].users
                < usize::MAX,
            resources.pid matches Ok(pid) ==> !old(sched)@.contains_key(pid) && pid != old(
                self,
            )@.pid,
        ensures
            final(self).wf(),
            final(sched).wf(),
            final(tables).wf(),
            final(sched).current() == old(sched).current(),
            match fork_failure(old(self)@, parent, options, resources) {
                Some(failure) => {
                    &&& res == Err::<Pid, ForkFailure>(failure)
                    &&& final(self)@ == (if resources.pid is Err {
                        old(self)@
                    } else {
                        old(self)@.forking(options)
                    })
                    &&& final(sched)@ == old(sched)@
                    &&& final(tables)@ == old(tables)@
                },
                None => {
                    let pid = resources.pid->Ok_0;
                    &&& res == Ok::<Pid, ForkFailure>(pid)
                    &&& final(self)@ == (ProcessView {
                        children: with_pid(old(self)@.children, pid),
                        ..old(self)@.forking(options)
                    })
                    &&& final(sched)@.contains_key(pid)
                    &&& ({
                        let handlers = final(sched)@[pid].signal_handlers;
                        &&& final(sched)@ == old(sched)@.insert(
                            pid,
                            old(self)@.child(parent, options, resources, handlers),
                        )
                        &&& handlers_forked(
                            old(tables)@,
                            final(tables)@,
                            old(self)@.signal_handlers as int,
                            handlers as int,
                            options,
                        )
                    })
                },
            },
    {
        let pid: Pid = match resources.pid {
            Ok(pid) => pid,
            Err(errno) => {
                return Err(ForkFailure { errno, release: None, given_up: References::none() });
            },
        };

        // Handling vfork
        let vfork_state = if options.vfork {
            self.vfork_state = VForkState::Waiting;
            VForkState::Executing
        } else {
            VForkState::Inactive
        };

        // Cloning memory space
        let (mem_space, kernel_stack) = if options.share_memory || options.vfork {
            match resources.kernel_stack {
                Ok(stack) => (self.mem_space, Some(stack)),
                Err(errno) => {
                    let given_up = References::none();
                    return Err(ForkFailure { errno, release: None, given_up });
                },
            }
        } else {
            match resources.mem_space {
                Ok(mem_space) => (Some(mem_space), self.kernel_stack),
                Err(errno) => {
                    let given_up = References::none();
                    return Err(ForkFailure { errno, release: None, given_up });
                },
            }
        };

        // Cloning file descriptors
        let file_descriptors = if options.share_fd || self.file_descriptors.is_none() {
            self.file_descriptors
        } else {
            match resources.file_descriptors {
                Ok(fds) => Some(fds),
                Err(errno) => {
                    let given_up = References { mem_space, file_descriptors: None };
                    return Err(ForkFailure { errno, release: None, given_up });
                },
            }
        };

        if let Err(errno) = resources.procfs {
            let kernel_stack = stack_release(mem_space, kernel_stack);
            let given_up = References { mem_space, file_descriptors };
            let release = Release { pid, kernel_stack, given_up };
            let given_up = References::none();
            return Err(ForkFailure { errno, release: Some(release), given_up });
        }

        // Cloning signal handlers
        let signal_handlers: usize = if options.share_sighand {
            tables.share(self.signal_handlers);
            self.signal_handlers
        } else {
            tables.duplicate(self.signal_handlers)
        };

        let process = Process {
            pid,
            pgid: self.pgid,
            tid: pid,
            argv: duplicate_names(&self.argv),
            exec_path: self.exec_path.duplicate(),
            tty: self.tty,
            uid: self.uid,
            gid: self.gid,
            euid: self.euid,
            egid: self.egid,
            suid: self.suid,
            sgid: self.sgid,
            umask: self.umask,
            state: State::Running,
            vfork_state,
            priority: self.priority,
            nice: self.nice,
            quantum_count: 0,
            parent: Some(parent),
            children: Vec::new(),
            process_group: Vec::new(),
            regs: self.regs,
            syscalling: false,
            handled_signal: self.handled_signal,
            saved_regs: self.saved_regs,
            waitable: false,
            mem_space,
            user_stack: self.user_stack,
            kernel_stack,
            cwd: self.cwd.duplicate(),
            chroot: self.chroot.duplicate(),
            file_descriptors,
            sigmask: self.sigmask.duplicate(),
            sigpending: Bitfield::new(SIGNALS_COUNT),
            signal_handlers,
            tls_entries: self.tls_entries,
            set_child_tid: self.set_child_tid,
            clear_child_tid: self.clear_child_tid,
            rusage: RUsage::default(),
            exit_status: self.exit_status,
            termsig: 0,
        };

        let _ = self.add_child(pid);
        Ok(sched.add_process(process))
    }

    /// Tells whether the table of signal handlers of the process is in use.
    pub fn has_handlers(&self, tables: &HandlerTables) -> (res: bool)
        ensures
            res == tables.in_use(self@.signal_handlers),
    {
        tables.is_in_use(self.signal_handlers)
    }

    /// Tells whether one more process can use the table of signal handlers of
    /// the process, which must be in use.
    pub fn can_share_handlers(&self, tables: &HandlerTables) -> (res: bool)
        requires
            tables.in_use(self@.signal_handlers),
        ensures
            res == (tables@[self@.signal_handlers as int].users < usize::MAX),
    {
        tables.can_share(self.signal_handlers)
    }

    /// Returns what has to be freed when the process disappears, and stops
    /// using its signal handlers. The init process never disappears.
    pub fn drop(self, tables: &mut HandlerTables) -> (res: Release)
        requires
            !self@.is_init(),
            old(tables).wf(),
            old(tables).in_use(self@.signal_handlers),
        ensures
            res == self@.release(),
            final(tables).wf(),
            final(tables)@ == with_users(
                old(tables)@,
                self@.signal_handlers as int,
                (old(tables)@[self@.signal_handlers as int].users - 1) as nat,
            ),
    {
        tables.release(self.signal_handlers);
        Release {
            pid: self.pid,
            kernel_stack: stack_release(self.mem_space, self.kernel_stack),
            given_up: self.get_references(),
        }
    }
}

/// Returns the unmapping of a kernel stack, if there is one to be unmapped.
fn stack_release(mem_space: Option<MemSpaceId>, kernel_stack: Option<Address>) -> (res: Option<
    StackUnmapping,
>)
    ensures
        res == (match (mem_space, kernel_stack) {
            (Some(mem_space), Some(stack)) => Some(
                StackUnmapping { mem_space, stack, pages: KERNEL_STACK_SIZE },
            ),
            _ => None,
        }),
{
    match (mem_space, kernel_stack) {
        (Some(mem_space), Some(stack)) => Some(
            StackUnmapping { mem_space, stack, pages: KERNEL_STACK_SIZE },
        ),
        _ => None,
    }
}

} // verus!
