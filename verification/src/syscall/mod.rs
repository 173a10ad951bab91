//! System calls.

pub mod getgid;
pub mod kill;
