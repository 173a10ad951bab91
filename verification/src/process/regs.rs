//! The registers and the resource usage of a process.

use vstd::prelude::*;

verus! {

/// The state of the processor's registers.
#[derive(Clone, Copy, Debug, PartialEq, Eq, Structural)]
pub struct Regs {
    pub ebp: u32,
    pub esp: u32,
    pub eip: u32,
    pub eflags: u32,
    pub eax: u32,
    pub ebx: u32,
    pub ecx: u32,
    pub edx: u32,
    pub esi: u32,
    pub edi: u32,
    pub gs: u32,
    pub fs: u32,
}

impl Regs {
    /// Registers that are all zero.
    pub open spec fn zero() -> Regs {
        Regs {
            ebp: 0,
            esp: 0,
            eip: 0,
            eflags: 0,
            eax: 0,
            ebx: 0,
            ecx: 0,
            edx: 0,
            esi: 0,
            edi: 0,
            gs: 0,
            fs: 0,
        }
    }
}

impl Default for Regs {
    fn default() -> (res: Self)
        ensures
            res == Regs::zero(),
    {
        Regs {
            ebp: 0,
            esp: 0,
            eip: 0,
            eflags: 0,
            eax: 0,
            ebx: 0,
            ecx: 0,
            edx: 0,
            esi: 0,
            edi: 0,
            gs: 0,
            fs: 0,
        }
    }
}

/// The resources used by a process.
#[derive(Clone, Copy, Debug, PartialEq, Eq, Structural)]
pub struct RUsage {
    /// The number of signals received.
    pub ru_nsignals: i64,
}

impl Default for RUsage {
    fn default() -> (res: Self)
        ensures
            res == (RUsage { ru_nsignals: 0 }),
    {
        RUsage { ru_nsignals: 0 }
    }
}

} // verus!
