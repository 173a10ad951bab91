# kernel

The process side of a small 32-bit kernel, verified with Verus.

- `src/process/`: the process control block. `signals.rs` sends signals and
  chooses the next one to handle, `family.rs` holds process groups, parents and
  children and the end of processes, `fork.rs` their creation, `switch.rs`
  context switches. `holders.rs` tells which memory spaces and file descriptors
  tables processes still hold.
- `src/scheduler.rs`: the processes of the system. A process that is worked on
  is taken out of the scheduler and put back afterwards.
- `src/signal.rs`: signals, and the tables of handlers that processes share.
- `src/interrupt.rs`: processor exceptions.
- `src/syscall/`: the `kill` and `getgid` system calls.
- `src/file/`: the directory of a process in the procfs.
- `src/laws.rs`: what holds of processes whatever happens to them.
- `app/`: the processes, run on a machine.

Contracts speak of the view of a process (`ProcessView`) and of the map from IDs
to views that the scheduler stands for. The library does no machine work. Where
some is needed, such as executing the action of a signal, binding a memory space
or mapping a stack, a function returns what is to be done, or takes the result
of having it done.
