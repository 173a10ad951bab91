//! Memory, stacks, TLS entries and context switches.

use vstd::prelude::*;

use crate::errno::Errno;
use crate::gdt::{Entry, ENTRY_SIZE, KERNEL_DS, TLS_OFFSET, USER_DS};
use crate::memory::{Address, MemSpaceId, StackMapping, PAGE_SIZE};
use crate::process::fork::{
    KERNEL_STACK_FLAGS, KERNEL_STACK_SIZE, USER_STACK_FLAGS, USER_STACK_SIZE,
};
use crate::process::regs::Regs;
use crate::process::state::State;
use crate::process::{Process, ProcessView, TLS_ENTRIES_COUNT};
use crate::signal::Execution;

verus! {

/// Half the size of a kernel stack, in bytes.
pub const HALF_KERNEL_STACK: Address = 131072;

/// The values to be written to the Task State Segment.
#[derive(Clone, Copy, Debug, PartialEq, Eq, Structural)]
pub struct TssUpdate {
    /// The kernel's stack segment.
    pub ss0: u32,
    /// The user's stack segment.
    pub ss: u32,
    /// The kernel's stack pointer.
    pub esp0: Address,
}

/// An entry to be written to the Global Descriptor Table.
#[derive(Clone, Copy, Debug, PartialEq, Eq, Structural)]
pub struct GdtUpdate {
    /// The offset of the entry in the table.
    pub offset: usize,
    /// The entry.
    pub entry: Entry,
}

/// How far the preparation of a context switch has come.
#[derive(Clone, Copy, Debug, PartialEq, Eq, Structural)]
pub enum SwitchStage {
    /// The preparation begins.
    Begin,
    /// The signal that was pending on the process has been executed.
    SignalExecuted,
}

/// What is to be done for the processor to run a process.
#[derive(Debug)]
pub struct Switch {
    /// The values to be written to the TSS.
    pub tss: TssUpdate,
    /// The memory space to be bound.
    pub mem_space: MemSpaceId,
    /// The TLS entries to be written to the GDT.
    pub tls: Vec<GdtUpdate>,
}

/// The next step of a context switch.
#[derive(Debug)]
pub enum SwitchStep {
    /// The process cannot be run.
    Cancel,
    /// The action of a signal is to be executed, before going on with the
    /// stage `SignalExecuted`.
    Execute(Execution),
    /// The process is to be run.
    Run(Switch),
}

/// The memory of a process that runs without a program, each part with the
/// error that prevented getting it.
#[derive(Debug)]
pub struct DummyMemory {
    /// A new memory space.
    pub mem_space: Result<MemSpaceId, Errno>,
    /// The kernel stack mapped in it.
    pub kernel_stack: Result<Address, Errno>,
    /// The user stack mapped in it.
    pub user_stack: Result<Address, Errno>,
}

impl DummyMemory {
    /// The error of the first part that could not be had.
    pub open spec fn error(self) -> Option<Errno> {
        if self.mem_space is Err {
            Some(self.mem_space->Err_0)
        } else if self.kernel_stack is Err {
            Some(self.kernel_stack->Err_0)
        } else if self.user_stack is Err {
            Some(self.user_stack->Err_0)
        } else {
            None
        }
    }
}

impl ProcessView {
    /// The kernel stack of the process can be used. While the process handles a
    /// signal, the upper half of the stack is left alone.
    pub open spec fn has_kernel_stack(self) -> bool {
        &&& self.kernel_stack is Some
        &&& self.handling() ==> self.kernel_stack->0 >= HALF_KERNEL_STACK
    }

    /// The values of the TSS for the process.
    pub open spec fn tss(self) -> TssUpdate {
        let stack = self.kernel_stack->0;
        TssUpdate {
            ss0: KERNEL_DS,
            ss: USER_DS,
            esp0: if self.handling() {
                (stack - HALF_KERNEL_STACK) as Address
            } else {
                stack
            },
        }
    }

    /// The place of the `n`th TLS entry in the GDT, and the entry.
    pub open spec fn tls(self, n: int) -> GdtUpdate {
        GdtUpdate {
            offset: (TLS_OFFSET + n * ENTRY_SIZE) as usize,
            entry: self.tls_entries[n],
        }
    }

    /// The pending signal to be executed before the process is run.
    pub open spec fn signal_before_switch(self, stage: SwitchStage) -> Option<Execution> {
        if stage == SwitchStage::Begin && !self.syscalling {
            self.next_execution()
        } else {
            None
        }
    }

    /// The process is run in this stage.
    pub open spec fn runs(self, stage: SwitchStage) -> bool {
        self.state == State::Running && self.signal_before_switch(stage) is None
    }
}

impl Process {
    /// Returns the mapping of a kernel stack.
    pub fn kernel_stack_mapping() -> (res: StackMapping)
        ensures
            res == (StackMapping { pages: KERNEL_STACK_SIZE, flags: KERNEL_STACK_FLAGS }),
    {
        StackMapping { pages: KERNEL_STACK_SIZE, flags: KERNEL_STACK_FLAGS }
    }

    /// Returns the mapping of a user stack.
    pub fn user_stack_mapping() -> (res: StackMapping)
        ensures
            res == (StackMapping { pages: USER_STACK_SIZE, flags: USER_STACK_FLAGS }),
    {
        StackMapping { pages: USER_STACK_SIZE, flags: USER_STACK_FLAGS }
    }

    /// Returns the process's memory space.
    /// If the process is terminated, the function returns None.
    pub fn get_mem_space(&self) -> (res: Option<MemSpaceId>)
        ensures
            res == (if self@.state == State::Zombie {
                None
            } else {
                self@.mem_space
            }),
    {
        if self.state == State::Zombie {
            None
        } else {
            self.mem_space
        }
    }

    /// Returns the process's kernelspace stack, if it has one.
    pub fn get_kernel_stack(&self) -> (res: Option<Address>)
        ensures
            res == self@.kernel_stack,
    {
        self.kernel_stack
    }

    /// Returns the number of quantum the process ran.
    pub fn get_quantum_count(&self) -> (res: usize)
        ensures
            res == self@.quantum_count,
    {
        self.quantum_count
    }

    /// Sets the new memory space for the process, giving up the previous one if
    /// any. A running process must have one.
    ///
    /// If the process is currently running, the function returns the memory
    /// space, which is to be bound.
    pub fn set_mem_space(&mut self, mem_space: Option<MemSpaceId>) -> (res: Option<MemSpaceId>)
        requires
            old(self)@.state == State::Running ==> mem_space is Some,
        ensures
            old(self).wf() ==> final(self).wf(),
            final(self)@ == (ProcessView { mem_space, ..old(self)@ }),
            res == (if old(self)@.state == State::Running {
                mem_space
            } else {
                None
            }),
    {
        self.mem_space = mem_space;
        if self.state == State::Running {
            mem_space
        } else {
            None
        }
    }

    /// Returns the memory space that the process holds. A terminated process
    /// holds its memory space until it disappears.
    pub fn get_held_mem_space(&self) -> (res: Option<MemSpaceId>)
        ensures
            res == self@.mem_space,
    {
        self.mem_space
    }

    /// Returns the number of virtual memory pages used by the process. `pages`
    /// is the number of pages used by its memory space, if it has one.
    pub fn get_vmem_usage(&self, pages: usize) -> (res: usize)
        ensures
            res == (if self@.mem_space is Some {
                pages
            } else {
                0
            }),
    {
        if self.mem_space.is_some() {
            pages
        } else {
            0
        }
    }

    /// Returns the values of the TSS on the current core for the process.
    pub fn update_tss(&self) -> (res: TssUpdate)
        requires
            self@.has_kernel_stack(),
        ensures
            res == self@.tss(),
    {
        let mut esp0: Address = self.kernel_stack.unwrap();
        if self.is_handling_signal() {
            // Preventing overlapping of stacks
            esp0 = esp0 - (KERNEL_STACK_SIZE as u32 / 2) * PAGE_SIZE;
        }
        TssUpdate { ss0: KERNEL_DS, ss: USER_DS, esp0 }
    }

    /// Prepares for context switching to the process.
    /// The function may ask for a signal to be executed, which may update the
    /// state of the process. It is then called again, with the stage
    /// `SignalExecuted`.
    pub fn prepare_switch(&mut self, stage: SwitchStage) -> (res: SwitchStep)
        requires
            old(self).wf(),
            old(self)@.runs(stage) ==> {
                &&& old(self)@.has_kernel_stack()
                &&& old(self)@.mem_space is Some
                &&& old(self)@.quantum_count < usize::MAX
            },
        ensures
            final(self).wf(),
            ({
                let p = old(self)@;
                if p.state != State::Running {
                    &&& res is Cancel
                    &&& final(self)@ == p
                } else if p.signal_before_switch(stage) is Some {
                    &&& res matches SwitchStep::Execute(execution)
                    &&& execution == p.signal_before_switch(stage)->0
                    &&& final(self)@ == p
                } else {
                    &&& res matches SwitchStep::Run(switch)
                    &&& switch.tss == p.tss()
                    &&& Some(switch.mem_space) == p.mem_space
                    &&& switch.tls@ == Seq::new(TLS_ENTRIES_COUNT as nat, |n: int| p.tls(n))
                    &&& final(self)@ == (ProcessView {
                        quantum_count: (p.quantum_count + 1) as usize,
                        ..p
                    })
                }
            }),
    {
        if self.state != State::Running {
            return SwitchStep::Cancel;
        }

        // If the process is not in a syscall and a signal is pending on the
        // process, execute it
        if stage == SwitchStage::Begin && !self.is_syscalling() {
            if let Some(execution) = self.signal_next() {
                return SwitchStep::Execute(execution);
            }
        }

        let tss = self.update_tss();
        let mem_space: MemSpaceId = self.mem_space.unwrap();

        // Updating TLS entries in the GDT
        let mut tls: Vec<GdtUpdate> = Vec::new();
        let mut i: usize = 0;
        while i < TLS_ENTRIES_COUNT
            invariant
                i <= TLS_ENTRIES_COUNT,
                tls@ == Seq::new(i as nat, |n: int| self@.tls(n)),
            decreases TLS_ENTRIES_COUNT - i,
        {
            if let Some(update) = self.update_tls(i) {
                tls.push(update);
            }
            i += 1;
        }

        // Incrementing the number of ticks the process had
        self.quantum_count = self.quantum_count + 1;
        assert(forall|n: int| 0 <= n < TLS_ENTRIES_COUNT ==> #[trigger] self@.tls(n) == old(
            self,
        )@.tls(n));
        assert(tls@ =~= Seq::new(TLS_ENTRIES_COUNT as nat, |n: int| old(self)@.tls(n)));
        SwitchStep::Run(Switch { tss, mem_space, tls })
    }

    /// Initializes the process to run without a program.
    /// `pc` is the initial program counter. `memory` is the new memory of the
    /// process. On fail, the process does not hold the new memory space.
    pub fn init_dummy(&mut self, pc: Address, memory: DummyMemory) -> (res: Result<(), Errno>)
        ensures
            old(self).wf() ==> final(self).wf(),
            match memory.error() {
                Some(errno) => {
                    &&& res == Err::<(), Errno>(errno)
                    &&& final(self)@ == old(self)@
                },
                None => {
                    &&& res == Ok::<(), Errno>(())
                    &&& final(self)@ == (ProcessView {
                        mem_space: Some(memory.mem_space->Ok_0),
                        kernel_stack: Some(memory.kernel_stack->Ok_0),
                        user_stack: Some(memory.user_stack->Ok_0),
                        regs: Regs { esp: memory.user_stack->Ok_0, eip: pc, ..Regs::zero() },
                        ..old(self)@
                    })
                },
            },
    {
        let mem_space: MemSpaceId = match memory.mem_space {
            Ok(mem_space) => mem_space,
            Err(errno) => {
                return Err(errno);
            },
        };
        let kernel_stack: Address = match memory.kernel_stack {
            Ok(stack) => stack,
            Err(errno) => {
                return Err(errno);
            },
        };
        let user_stack: Address = match memory.user_stack {
            Ok(stack) => stack,
            Err(errno) => {
                return Err(errno);
            },
        };
        self.mem_space = Some(mem_space);
        self.kernel_stack = Some(kernel_stack);
        self.user_stack = Some(user_stack);

        // Setting the registers' initial state
        self.regs = Regs { esp: user_stack, eip: pc, ..Regs::default() };
        Ok(())
    }

    /// Returns the list of TLS entries for the process.
    pub fn get_tls_entries(&mut self) -> (res: &mut [Entry])
        ensures
            res@ == old(self)@.tls_entries,
            final(self)@ == (ProcessView { tls_entries: final(res)@, ..old(self)@ }),
            old(self).wf() ==> final(self).wf(),
    {
        &mut self.tls_entries
    }

    /// Clears the process's TLS entries.
    pub fn clear_tls_entries(&mut self)
        ensures
            old(self).wf() ==> final(self).wf(),
            final(self)@ == (ProcessView {
                tls_entries: Seq::new(TLS_ENTRIES_COUNT as nat, |n: int| 0u64),
                ..old(self)@
            }),
    {
        self.tls_entries = [0u64; TLS_ENTRIES_COUNT];
        assert(self.tls_entries@ =~= Seq::new(TLS_ENTRIES_COUNT as nat, |n: int| 0u64));
    }

    /// Returns the `n`th TLS entry, with its place in the GDT.
    /// If `n` is out of bounds, the function returns None.
    pub fn update_tls(&self, n: usize) -> (res: Option<GdtUpdate>)
        ensures
            res == (if n < TLS_ENTRIES_COUNT {
                Some(self@.tls(n as int))
            } else {
                None
            }),
    {
        if n < TLS_ENTRIES_COUNT {
            Some(GdtUpdate { offset: TLS_OFFSET + n * ENTRY_SIZE, entry: self.tls_entries[n] })
        } else {
            None
        }
    }
}

} // verus!
