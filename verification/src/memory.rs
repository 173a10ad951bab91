//! Addresses and memory spaces.

use vstd::prelude::*;

verus! {

/// A virtual address. Addresses are 32 bits wide.
pub type Address = u32;

/// Identifies a memory space. Processes that share their memory hold the same
/// identifier.
pub type MemSpaceId = usize;

/// The size of a memory page in bytes.
pub const PAGE_SIZE: u32 = 4096;

/// The mapping can be written to.
pub const MAPPING_FLAG_WRITE: u8 = 0b0001;

/// The mapping is accessible from user space.
pub const MAPPING_FLAG_USER: u8 = 0b0100;

/// The mapping is backed by physical memory from the start.
pub const MAPPING_FLAG_NOLAZY: u8 = 0b1000;

/// A stack to be mapped: its size in pages and the flags of its mapping.
#[derive(Clone, Copy, Debug, PartialEq, Eq, Structural)]
pub struct StackMapping {
    pub pages: usize,
    pub flags: u8,
}

} // verus!
