//! What new processes are made of, and what is left of them, field by field.

use vstd::prelude::*;

use crate::file::{FdTableId, TTYHandle};
use crate::memory::{MAPPING_FLAG_NOLAZY, MAPPING_FLAG_USER, MAPPING_FLAG_WRITE};
use crate::path::PathView;
use crate::pid_list::Pid;
use crate::process::fork::{
    fork_failure, handlers_forked, ForkOptions, ForkResources, KERNEL_STACK_FLAGS,
    KERNEL_STACK_SIZE, USER_STACK_FLAGS, USER_STACK_SIZE,
};
use crate::process::regs::Regs;
use crate::process::state::{State, VForkState};
use crate::process::ProcessView;
use crate::signal::{HandlerTableView, SIGNALS_COUNT};

verus! {

/// The init process runs, as the superuser, in the root directory, with its own
/// group. It has no parent, no children, no memory and no pending signal, and
/// blocks none.
pub proof fn law_init_process(tty: TTYHandle, fds: FdTableId, handlers: usize)
    ensures
        ({
            let p = ProcessView::init(tty, fds, handlers);
            &&& p.pid == 1 && p.tid == 1 && p.pgid == 1
            &&& p.uid == 0 && p.euid == 0 && p.suid == 0
            &&& p.gid == 0 && p.egid == 0 && p.sgid == 0
            &&& p.umask == 0o022
            &&& p.tty == tty
            &&& p.file_descriptors == Some(fds)
            &&& p.signal_handlers == handlers
            &&& p.state == State::Running
            &&& p.vfork_state == VForkState::Inactive
            &&& p.priority == 0 && p.nice == 0 && p.quantum_count == 0
            &&& p.parent is None
            &&& p.argv.len() == 0 && p.children.len() == 0 && p.process_group.len() == 0
            &&& p.exec_path.absolute && p.exec_path.parts.len() == 0
            &&& p.cwd.absolute && p.cwd.parts.len() == 0
            &&& p.chroot.absolute && p.chroot.parts.len() == 0
            &&& p.mem_space is None && p.user_stack is None && p.kernel_stack is None
            &&& p.handled_signal is None && !p.syscalling && !p.waitable
            &&& p.set_child_tid is None && p.clear_child_tid is None
            &&& p.rusage.ru_nsignals == 0 && p.exit_status == 0 && p.termsig == 0
            &&& p.sigmask.len() == SIGNALS_COUNT && p.sigpending.len() == SIGNALS_COUNT
            &&& forall|i: int|
                0 <= i < SIGNALS_COUNT ==> !#[trigger] p.sigmask[i] && !#[trigger] p.sigpending[i]
            &&& p.tls_entries.len() == 3
            &&& forall|i: int| 0 <= i < 3 ==> #[trigger] p.tls_entries[i] == 0
            &&& zero_registers(p.regs) && zero_registers(p.saved_regs)
        }),
{
}

/// All registers are zero.
pub open spec fn zero_registers(regs: Regs) -> bool {
    &&& regs.ebp == 0 && regs.esp == 0 && regs.eip == 0 && regs.eflags == 0
    &&& regs.eax == 0 && regs.ebx == 0 && regs.ecx == 0 && regs.edx == 0
    &&& regs.esi == 0 && regs.edi == 0 && regs.gs == 0 && regs.fs == 0
}

/// Registers that are all zero are so one by one.
pub proof fn law_default_registers()
    ensures
        zero_registers(Regs::zero()),
{
}

/// A new process has every attribute of the process that forked: its program, its
/// terminal, its users and groups, its directories, its priority, its registers,
/// the signal it handles and those it blocks, its stack in user space and its
/// TLS entries.
pub proof fn law_child_inherits(
    p: ProcessView,
    parent: Pid,
    options: ForkOptions,
    resources: ForkResources,
    handlers: usize,
)
    ensures
        ({
            let child = p.child(parent, options, resources, handlers);
            &&& child.pgid == p.pgid
            &&& child.argv == p.argv
            &&& child.exec_path == p.exec_path
            &&& child.tty == p.tty
            &&& child.uid == p.uid && child.euid == p.euid && child.suid == p.suid
            &&& child.gid == p.gid && child.egid == p.egid && child.sgid == p.sgid
            &&& child.umask == p.umask
            &&& child.priority == p.priority
            &&& child.nice == p.nice
            &&& child.regs == p.regs
            &&& child.handled_signal == p.handled_signal
            &&& child.saved_regs == p.saved_regs
            &&& child.user_stack == p.user_stack
            &&& child.cwd == p.cwd
            &&& child.chroot == p.chroot
            &&& child.sigmask == p.sigmask
            &&& child.tls_entries == p.tls_entries
            &&& child.set_child_tid == p.set_child_tid
            &&& child.clear_child_tid == p.clear_child_tid
            &&& child.exit_status == p.exit_status
        }),
{
}

/// What a new process does not have of the process that forked: it has the ID it
/// was given and its own thread, runs, has used nothing yet, has no children, no
/// members in its group and no pending signal, and nothing to be waited for.
pub proof fn law_child_starts_afresh(
    p: ProcessView,
    parent: Pid,
    options: ForkOptions,
    resources: ForkResources,
    handlers: usize,
    pid: Pid,
)
    requires
        resources.pid == Ok::<Pid, i32>(pid),
    ensures
        ({
            let child = p.child(parent, options, resources, handlers);
            &&& child.pid == pid
            &&& child.tid == pid
            &&& child.state == State::Running
            &&& child.quantum_count == 0
            &&& child.parent == Some(parent)
            &&& child.children.len() == 0
            &&& child.process_group.len() == 0
            &&& !child.syscalling
            &&& !child.waitable
            &&& child.rusage.ru_nsignals == 0
            &&& child.termsig == 0
            &&& child.signal_handlers == handlers
            &&& child.sigpending.len() == SIGNALS_COUNT
            &&& forall|i: int| 0 <= i < SIGNALS_COUNT ==> !#[trigger] child.sigpending[i]
            &&& child.vfork_state == (if options.vfork {
                VForkState::Executing
            } else {
                VForkState::Inactive
            })
        }),
{
}

/// A new process uses the memory space of the process that forked, with a kernel
/// stack of its own, if the two share their memory or the fork is a vfork.
/// Otherwise it has a copy of the memory space, with the same kernel stack in
/// it. It uses the same file descriptors table if the two share it or if there
/// is none, and a copy otherwise.
pub proof fn law_child_resources(
    p: ProcessView,
    parent: Pid,
    options: ForkOptions,
    resources: ForkResources,
    handlers: usize,
    mem_space: usize,
    stack: u32,
    fds: usize,
)
    requires
        resources.mem_space == Ok::<usize, i32>(mem_space),
        resources.kernel_stack == Ok::<u32, i32>(stack),
        resources.file_descriptors == Ok::<usize, i32>(fds),
    ensures
        ({
            let child = p.child(parent, options, resources, handlers);
            &&& options.shares_memory() <==> options.share_memory || options.vfork
            &&& options.share_memory || options.vfork ==> child.mem_space == p.mem_space
                && child.kernel_stack == Some(stack)
            &&& !options.share_memory && !options.vfork ==> child.mem_space == Some(mem_space)
                && child.kernel_stack == p.kernel_stack
            &&& options.share_fd ==> child.file_descriptors == p.file_descriptors
            &&& p.file_descriptors is None ==> child.file_descriptors is None
            &&& !options.share_fd && p.file_descriptors is Some ==> child.file_descriptors == Some(
                fds,
            )
        }),
{
}

/// The process that forks waits if the fork is a vfork. Nothing else of it
/// changes before it has its new child.
pub proof fn law_forking_process(p: ProcessView, options: ForkOptions)
    ensures
        options.vfork ==> p.forking(options) == (ProcessView {
            vfork_state: VForkState::Waiting,
            ..p
        }),
        !options.vfork ==> p.forking(options) == p,
{
}

/// A fork succeeds exactly if there is an ID for the new process, the stack or
/// the copy of the memory space that it needs, the copy of the file descriptors
/// if it needs one, and if it could be registered. Otherwise it fails with the
/// error of the first of these that could not be had.
pub proof fn law_fork_succeeds(
    p: ProcessView,
    parent: Pid,
    options: ForkOptions,
    resources: ForkResources,
)
    ensures
        ({
            let failure = fork_failure(p, parent, options, resources);
            let shared = options.share_memory || options.vfork;
            let copies_fds = !options.share_fd && p.file_descriptors is Some;
            let memory = if shared {
                resources.kernel_stack is Ok
            } else {
                resources.mem_space is Ok
            };
            &&& failure is None <==> resources.pid is Ok && memory && (copies_fds
                ==> resources.file_descriptors is Ok) && resources.procfs is Ok
            &&& failure matches Some(f) ==> {
                &&& resources.pid matches Err(e) ==> f.errno == e
                &&& resources.pid is Ok && !memory ==> {
                    &&& shared ==> resources.kernel_stack == Err::<u32, i32>(f.errno)
                    &&& !shared ==> resources.mem_space == Err::<usize, i32>(f.errno)
                }
                &&& resources.pid is Ok && memory && copies_fds
                    && resources.file_descriptors is Err ==> resources.file_descriptors == Err::<
                    usize,
                    i32,
                >(f.errno)
                &&& resources.pid is Ok && memory && (copies_fds
                    ==> resources.file_descriptors is Ok) ==> resources.procfs == Err::<(), i32>(
                    f.errno,
                )
            }
        }),
{
}

/// What a failed fork leaves to be freed. Only a new process that could not be
/// registered has its ID and its kernel stack freed. What was copied for a new
/// process that never existed is given up.
pub proof fn law_fork_failure_leaves(
    p: ProcessView,
    parent: Pid,
    options: ForkOptions,
    resources: ForkResources,
)
    requires
        fork_failure(p, parent, options, resources) is Some,
    ensures
        ({
            let failure = fork_failure(p, parent, options, resources)->0;
            let child = p.child(parent, options, resources, 0);
            let shared = options.share_memory || options.vfork;
            let copies_fds = !options.share_fd && p.file_descriptors is Some;
            let has_memory = resources.pid is Ok && if shared {
                resources.kernel_stack is Ok
            } else {
                resources.mem_space is Ok
            };
            let existed = has_memory && (copies_fds ==> resources.file_descriptors is Ok);
            &&& failure.release is Some <==> existed
            &&& failure.release matches Some(release) ==> {
                &&& Ok::<Pid, i32>(release.pid) == resources.pid
                &&& release == child.release()
                &&& release.given_up.mem_space == child.mem_space
                &&& release.given_up.file_descriptors == child.file_descriptors
                &&& failure.given_up.mem_space is None
            }
            &&& failure.given_up.file_descriptors is None
            &&& has_memory && !existed ==> failure.given_up.mem_space == child.mem_space
            &&& !has_memory ==> failure.given_up.mem_space is None
        }),
{
}

/// A process that disappears leaves its ID, its memory space and its file
/// descriptors table. Its kernel stack, of 64 pages, is unmapped from its memory
/// space if it has both.
pub proof fn law_release(p: ProcessView, mem_space: usize, stack: u32)
    ensures
        ({
            let release = p.release();
            &&& release.pid == p.pid
            &&& release.given_up.mem_space == p.mem_space
            &&& release.given_up.file_descriptors == p.file_descriptors
            &&& p.mem_space is None || p.kernel_stack is None ==> release.kernel_stack is None
            &&& p.mem_space == Some(mem_space) && p.kernel_stack == Some(stack) ==> {
                &&& release.kernel_stack is Some
                &&& release.kernel_stack->0.mem_space == mem_space
                &&& release.kernel_stack->0.stack == stack
                &&& release.kernel_stack->0.pages == 64
            }
        }),
{
}

/// Stacks are writable. That of the kernel has 64 pages, backed by memory from
/// the start and out of reach of user space. That of user space has 2048 pages.
pub proof fn law_stacks()
    ensures
        KERNEL_STACK_SIZE == 64,
        USER_STACK_SIZE == 2048,
        KERNEL_STACK_FLAGS & MAPPING_FLAG_WRITE == MAPPING_FLAG_WRITE,
        KERNEL_STACK_FLAGS & MAPPING_FLAG_NOLAZY == MAPPING_FLAG_NOLAZY,
        KERNEL_STACK_FLAGS & MAPPING_FLAG_USER == 0,
        USER_STACK_FLAGS & MAPPING_FLAG_WRITE == MAPPING_FLAG_WRITE,
        USER_STACK_FLAGS & MAPPING_FLAG_USER == MAPPING_FLAG_USER,
        USER_STACK_FLAGS & MAPPING_FLAG_NOLAZY == 0,
        KERNEL_STACK_FLAGS == MAPPING_FLAG_WRITE | MAPPING_FLAG_NOLAZY,
        USER_STACK_FLAGS == MAPPING_FLAG_WRITE | MAPPING_FLAG_USER,
{
    assert((1u8 | 8u8) & 1u8 == 1u8 && (1u8 | 8u8) & 8u8 == 8u8 && (1u8 | 8u8) & 4u8 == 0u8)
        by (bit_vector);
    assert((1u8 | 4u8) & 1u8 == 1u8 && (1u8 | 4u8) & 4u8 == 4u8 && (1u8 | 4u8) & 8u8 == 0u8)
        by (bit_vector);
}

/// A new process has the handlers of the process that forked, in the same table
/// if the two share it, which then has one user more, and in a table of its own
/// otherwise. No other table changes.
pub proof fn law_child_handlers(
    before: Seq<HandlerTableView>,
    after: Seq<HandlerTableView>,
    table: int,
    handlers: int,
    options: ForkOptions,
    other: int,
)
    requires
        0 <= table < before.len(),
        before[table].users > 0,
        handlers_forked(before, after, table, handlers, options),
    ensures
        0 <= handlers < after.len(),
        after[handlers].handlers == before[table].handlers,
        options.share_sighand ==> handlers == table && after[table].users == before[table].users
            + 1 && after.len() == before.len(),
        !options.share_sighand ==> handlers != table && after[handlers].users == 1
            && after[table] == before[table],
        0 <= other < before.len() && other != handlers ==> after[other] == before[other],
{
}

/// The root directory is reached by no name. A relative path is followed from
/// where one is; an absolute one leads to the same place from anywhere.
pub proof fn law_paths(path: PathView, other: PathView)
    ensures
        PathView::root().absolute && PathView::root().parts.len() == 0,
        other.absolute ==> path.concat(other) == other,
        !other.absolute ==> path.concat(other).absolute == path.absolute && path.concat(other).parts
            == path.parts + other.parts,
{
}

} // verus!
