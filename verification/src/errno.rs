//! Error numbers.

use vstd::prelude::*;

verus! {

/// An error number, as returned to user space by system calls.
pub type Errno = i32;

/// Operation not permitted.
pub const EPERM: Errno = 1;

/// No such process.
pub const ESRCH: Errno = 3;

/// Invalid argument.
pub const EINVAL: Errno = 22;

} // verus!
