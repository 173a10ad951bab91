//! What the process side of the kernel needs to know of files.

use vstd::prelude::*;

pub mod proc_dir;

verus! {

/// The ID of a user.
pub type Uid = u16;

/// The ID of a group of users.
pub type Gid = u16;

/// A file mode.
pub type Mode = u32;

/// The ID of the superuser.
pub const ROOT_UID: Uid = 0;

/// The ID of the superuser's group.
pub const ROOT_GID: Gid = 0;

/// A moment in time.
pub type Timestamp = u64;

/// Identifies an open file descriptors table. Processes that share their table
/// hold the same identifier.
pub type FdTableId = usize;

/// Identifies a terminal.
pub type TTYHandle = usize;

} // verus!
