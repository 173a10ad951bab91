//! The `getgid` syscall returns the GID of the process's owner.

use vstd::prelude::*;

use crate::errno::Errno;
use crate::process::Process;
use crate::scheduler::Scheduler;

verus! {

/// The implementation of the `getgid` syscall. There must be a current process.
pub fn getgid(sched: &Scheduler) -> (res: Result<i32, Errno>)
    requires
        sched.wf(),
        sched.has_current(),
    ensures
        res == Ok::<i32, Errno>(sched@[sched.current()->0].gid as i32),
{
    let proc = Process::get_current(sched).unwrap();
    Ok(proc.get_gid() as i32)
}

} // verus!
