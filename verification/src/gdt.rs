//! The parts of the Global Descriptor Table that processes use.

use vstd::prelude::*;

verus! {

/// An entry of the table.
pub type Entry = u64;

/// The size of an entry in bytes.
pub const ENTRY_SIZE: usize = 8;

/// The offset of the kernel data segment in the table.
pub const KERNEL_DS: u32 = 16;

/// The offset of the user data segment in the table.
pub const USER_DS: u32 = 32;

/// The offset of the first TLS entry in the table.
pub const TLS_OFFSET: usize = 48;

} // verus!
