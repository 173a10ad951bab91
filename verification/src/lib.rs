//! The process side of a small kernel: process control blocks, signals,
//! process groups, `fork` and `vfork`, exit and the adoption of orphans.

pub mod bitfield;
pub mod errno;
pub mod file;
pub mod gdt;
pub mod interrupt;
pub mod laws;
pub mod memory;
pub mod path;
pub mod pid_list;
pub mod process;
pub mod scheduler;
pub mod signal;
pub mod syscall;
