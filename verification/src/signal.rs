//! Signals, and the tables of signal handlers that processes may share.

use vstd::prelude::*;

use crate::errno::{Errno, EINVAL};
use crate::pid_list::Pid;

verus! {

/// The number of signal IDs. Each ID in use is below this number.
pub const SIGNALS_COUNT: usize = 32;

/// What a signal does to a process that has no handler for it.
#[derive(Clone, Copy, Debug, PartialEq, Eq, Structural)]
pub enum SignalAction {
    /// Terminates the process.
    Terminate,
    /// Terminates the process abnormally.
    Abort,
    /// Does nothing.
    Ignore,
    /// Stops the process.
    Stop,
    /// Resumes the process if it is stopped.
    Continue,
}

/// A signal.
#[derive(Clone, Copy, Debug, PartialEq, Eq, Structural)]
pub enum Signal {
    SIGHUP,
    SIGINT,
    SIGQUIT,
    SIGILL,
    SIGTRAP,
    SIGABRT,
    SIGBUS,
    SIGFPE,
    SIGKILL,
    SIGUSR1,
    SIGSEGV,
    SIGUSR2,
    SIGPIPE,
    SIGALRM,
    SIGTERM,
    SIGCHLD,
    SIGCONT,
    SIGSTOP,
    SIGTSTP,
    SIGTTIN,
    SIGTTOU,
    SIGURG,
    SIGXCPU,
    SIGXFSZ,
    SIGVTALRM,
    SIGPROF,
    SIGWINCH,
    SIGPOLL,
    SIGSYS,
}

impl Signal {
    /// The ID of the signal.
    pub open spec fn id(self) -> u8 {
        match self {
            Signal::SIGHUP => 1,
            Signal::SIGINT => 2,
            Signal::SIGQUIT => 3,
            Signal::SIGILL => 4,
            Signal::SIGTRAP => 5,
            Signal::SIGABRT => 6,
            Signal::SIGBUS => 7,
            Signal::SIGFPE => 8,
            Signal::SIGKILL => 9,
            Signal::SIGUSR1 => 10,
            Signal::SIGSEGV => 11,
            Signal::SIGUSR2 => 12,
            Signal::SIGPIPE => 13,
            Signal::SIGALRM => 14,
            Signal::SIGTERM => 15,
            Signal::SIGCHLD => 17,
            Signal::SIGCONT => 18,
            Signal::SIGSTOP => 19,
            Signal::SIGTSTP => 20,
            Signal::SIGTTIN => 21,
            Signal::SIGTTOU => 22,
            Signal::SIGURG => 23,
            Signal::SIGXCPU => 24,
            Signal::SIGXFSZ => 25,
            Signal::SIGVTALRM => 26,
            Signal::SIGPROF => 27,
            Signal::SIGWINCH => 28,
            Signal::SIGPOLL => 29,
            Signal::SIGSYS => 31,
        }
    }

    /// The signal with the given ID, if there is one.
    pub open spec fn of_id(id: int) -> Option<Signal> {
        if exists|s: Signal| #[trigger] s.id() == id {
            Some(choose|s: Signal| #[trigger] s.id() == id)
        } else {
            None
        }
    }

    /// Tells whether a process may block the signal or handle it itself.
    pub open spec fn catchable(self) -> bool {
        self != Signal::SIGKILL && self != Signal::SIGSTOP
    }

    /// What the signal does to a process that has no handler for it.
    pub open spec fn default_action(self) -> SignalAction {
        match self {
            Signal::SIGQUIT | Signal::SIGILL | Signal::SIGTRAP | Signal::SIGABRT
            | Signal::SIGBUS | Signal::SIGFPE | Signal::SIGSEGV | Signal::SIGXCPU
            | Signal::SIGXFSZ | Signal::SIGSYS => SignalAction::Abort,
            Signal::SIGCHLD | Signal::SIGURG | Signal::SIGWINCH => SignalAction::Ignore,
            Signal::SIGSTOP | Signal::SIGTSTP | Signal::SIGTTIN | Signal::SIGTTOU
            => SignalAction::Stop,
            Signal::SIGCONT => SignalAction::Continue,
            _ => SignalAction::Terminate,
        }
    }

    /// Two signals never share an ID, and IDs stay below `SIGNALS_COUNT`.
    pub proof fn lemma_id(self)
        ensures
            0 < self.id() < SIGNALS_COUNT,
            Signal::of_id(self.id() as int) == Some(self),
    {
        let id = self.id() as int;
        let other = choose|s: Signal| #[trigger] s.id() == id;
        assert(self.id() == id);
        assert(other.id() == id);
        assert(other == self);
    }

    /// Returns the ID of the signal.
    pub fn get_id(&self) -> (res: u8)
        ensures
            res == self.id(),
            res < SIGNALS_COUNT,
    {
        match self {
            Signal::SIGHUP => 1,
            Signal::SIGINT => 2,
            Signal::SIGQUIT => 3,
            Signal::SIGILL => 4,
            Signal::SIGTRAP => 5,
            Signal::SIGABRT => 6,
            Signal::SIGBUS => 7,
            Signal::SIGFPE => 8,
            Signal::SIGKILL => 9,
            Signal::SIGUSR1 => 10,
            Signal::SIGSEGV => 11,
            Signal::SIGUSR2 => 12,
            Signal::SIGPIPE => 13,
            Signal::SIGALRM => 14,
            Signal::SIGTERM => 15,
            Signal::SIGCHLD => 17,
            Signal::SIGCONT => 18,
            Signal::SIGSTOP => 19,
            Signal::SIGTSTP => 20,
            Signal::SIGTTIN => 21,
            Signal::SIGTTOU => 22,
            Signal::SIGURG => 23,
            Signal::SIGXCPU => 24,
            Signal::SIGXFSZ => 25,
            Signal::SIGVTALRM => 26,
            Signal::SIGPROF => 27,
            Signal::SIGWINCH => 28,
            Signal::SIGPOLL => 29,
            Signal::SIGSYS => 31,
        }
    }

    /// Returns the signal with the given ID.
    pub fn from_id(id: u32) -> (res: Result<Signal, Errno>)
        ensures
            match Signal::of_id(id as int) {
                Some(s) => res == Ok::<Signal, Errno>(s),
                None => res == Err::<Signal, Errno>(EINVAL),
            },
    {
        let sig = match id {
            1 => Signal::SIGHUP,
            2 => Signal::SIGINT,
            3 => Signal::SIGQUIT,
            4 => Signal::SIGILL,
            5 => Signal::SIGTRAP,
            6 => Signal::SIGABRT,
            7 => Signal::SIGBUS,
            8 => Signal::SIGFPE,
            9 => Signal::SIGKILL,
            10 => Signal::SIGUSR1,
            11 => Signal::SIGSEGV,
            12 => Signal::SIGUSR2,
            13 => Signal::SIGPIPE,
            14 => Signal::SIGALRM,
            15 => Signal::SIGTERM,
            17 => Signal::SIGCHLD,
            18 => Signal::SIGCONT,
            19 => Signal::SIGSTOP,
            20 => Signal::SIGTSTP,
            21 => Signal::SIGTTIN,
            22 => Signal::SIGTTOU,
            23 => Signal::SIGURG,
            24 => Signal::SIGXCPU,
            25 => Signal::SIGXFSZ,
            26 => Signal::SIGVTALRM,
            27 => Signal::SIGPROF,
            28 => Signal::SIGWINCH,
            29 => Signal::SIGPOLL,
            31 => Signal::SIGSYS,
            _ => {
                assert(forall|s: Signal| #[trigger] s.id() != id);
                return Err(EINVAL);
            },
        };
        proof {
            sig.lemma_id();
        }
        Ok(sig)
    }

    /// Tells whether a process may block the signal or handle it itself.
    pub fn can_catch(&self) -> (res: bool)
        ensures
            res == self.catchable(),
    {
        match self {
            Signal::SIGKILL | Signal::SIGSTOP => false,
            _ => true,
        }
    }

    /// Returns what the signal does to a process that has no handler for it.
    pub fn get_default_action(&self) -> (res: SignalAction)
        ensures
            res == self.default_action(),
    {
        match self {
            Signal::SIGQUIT
            | Signal::SIGILL
            | Signal::SIGTRAP
            | Signal::SIGABRT
            | Signal::SIGBUS
            | Signal::SIGFPE
            | Signal::SIGSEGV
            | Signal::SIGXCPU
            | Signal::SIGXFSZ
            | Signal::SIGSYS => SignalAction::Abort,
            Signal::SIGCHLD | Signal::SIGURG | Signal::SIGWINCH => SignalAction::Ignore,
            Signal::SIGSTOP | Signal::SIGTSTP | Signal::SIGTTIN | Signal::SIGTTOU => {
                SignalAction::Stop
            },
            Signal::SIGCONT => SignalAction::Continue,
            _ => SignalAction::Terminate,
        }
    }
}

/// What a process wants to happen when it receives a signal.
#[derive(Clone, Copy, Debug, PartialEq, Eq, Structural)]
pub enum SignalHandler {
    /// The signal is ignored.
    Ignore,
    /// The default action of the signal is executed.
    Default,
    /// The function at the given address is called.
    Handler(usize),
}

/// The request to execute, for the process with ID `pid`, the action of a
/// signal.
#[derive(Clone, Copy, Debug, PartialEq, Eq, Structural)]
pub struct Execution {
    /// The process that received the signal.
    pub pid: Pid,
    /// The signal.
    pub sig: Signal,
    /// If true, the default action is executed whatever handler is set.
    pub no_handler: bool,
}

/// A table of signal handlers, and the number of processes that use it.
#[derive(Debug)]
struct HandlerTable {
    handlers: Vec<SignalHandler>,
    users: usize,
}

/// What a table of signal handlers holds: one handler per signal ID, and the
/// number of processes that use the table.
#[verifier::ext_equal]
pub struct HandlerTableView {
    pub handlers: Seq<SignalHandler>,
    pub users: nat,
}

/// The tables of signal handlers of all processes. A process refers to its
/// table by an index; processes that share their handlers use the same index.
#[derive(Debug)]
pub struct HandlerTables {
    tables: Vec<HandlerTable>,
}

impl View for HandlerTables {
    type V = Seq<HandlerTableView>;

    closed spec fn view(&self) -> Seq<HandlerTableView> {
        self.tables@.map_values(
            |t: HandlerTable|
                HandlerTableView { handlers: t.handlers@, users: t.users as nat },
        )
    }
}

/// The handlers of a process that has set none.
pub open spec fn default_handlers() -> Seq<SignalHandler> {
    Seq::new(SIGNALS_COUNT as nat, |i: int| SignalHandler::Default)
}

impl HandlerTables {
    /// Each table has one handler per signal ID.
    pub open spec fn wf(&self) -> bool {
        forall|i: int|
            0 <= i < self@.len() ==> (#[trigger] self@[i]).handlers.len() == SIGNALS_COUNT
    }

    /// The index refers to a table in use.
    pub open spec fn in_use(&self, table: usize) -> bool {
        table < self@.len() && self@[table as int].users > 0
    }

    /// Creates an empty set of tables.
    pub fn new() -> (res: Self)
        ensures
            res.wf(),
            res@ == Seq::<HandlerTableView>::empty(),
    {
        let res = Self { tables: Vec::new() };
        assert(res@ =~= Seq::<HandlerTableView>::empty());
        res
    }

    /// Adds a table, used by one process. The place of a table that is no
    /// longer in use is taken first.
    fn insert(&mut self, handlers: Vec<SignalHandler>) -> (res: usize)
        requires
            old(self).wf(),
            handlers@.len() == SIGNALS_COUNT,
        ensures
            final(self).wf(),
            added(old(self)@, final(self)@, res as int, handlers@),
    {
        let mut i: usize = 0;
        while i < self.tables.len()
            invariant
                self.wf(),
                *self == *old(self),
                i <= self@.len(),
                self@.len() == self.tables@.len(),
                handlers@.len() == SIGNALS_COUNT,
                forall|j: int| 0 <= j < i ==> (#[trigger] self@[j]).users > 0,
            decreases self.tables.len() - i,
        {
            if self.tables[i].users == 0 {
                let ghost view = HandlerTableView { handlers: handlers@, users: 1 };
                self.tables[i] = HandlerTable { handlers, users: 1 };
                assert(self@ =~= old(self)@.update(i as int, view));
                return i;
            }
            i += 1;
        }
        let ghost view = HandlerTableView { handlers: handlers@, users: 1 };
        self.tables.push(HandlerTable { handlers, users: 1 });
        assert(self@ =~= old(self)@.push(view));
        i
    }

    /// Adds a table in which no handler is set, used by one process. Returns
    /// its index.
    pub fn create(&mut self) -> (res: usize)
        requires
            old(self).wf(),
        ensures
            final(self).wf(),
            added(old(self)@, final(self)@, res as int, default_handlers()),
    {
        let handlers: Vec<SignalHandler> = vec![SignalHandler::Default; SIGNALS_COUNT];
        assert(handlers@ =~= default_handlers());
        self.insert(handlers)
    }

    /// Adds a copy of a table, used by one process. Returns its index.
    pub fn duplicate(&mut self, table: usize) -> (res: usize)
        requires
            old(self).wf(),
            old(self).in_use(table),
        ensures
            final(self).wf(),
            added(old(self)@, final(self)@, res as int, old(self)@[table as int].handlers),
    {
        let handlers: Vec<SignalHandler> = self.tables[table].handlers.clone();
        assert(handlers@ =~= self@[table as int].handlers);
        self.insert(handlers)
    }

    /// Tells whether the index refers to a table in use.
    pub fn is_in_use(&self, table: usize) -> (res: bool)
        ensures
            res == self.in_use(table),
    {
        table < self.tables.len() && self.tables[table].users > 0
    }

    /// Tells whether one more process can use a table.
    pub fn can_share(&self, table: usize) -> (res: bool)
        requires
            self.in_use(table),
        ensures
            res == (self@[table as int].users < usize::MAX),
    {
        self.tables[table].users < usize::MAX
    }

    /// Makes one more process use a table.
    pub fn share(&mut self, table: usize)
        requires
            old(self).wf(),
            old(self).in_use(table),
            old(self)@[table as int].users < usize::MAX,
        ensures
            final(self).wf(),
            final(self)@ == with_users(
                old(self)@,
                table as int,
                old(self)@[table as int].users + 1,
            ),
    {
        let users: usize = self.tables[table].users;
        self.tables[table].users = users + 1;
        assert(self@ =~= with_users(old(self)@, table as int, (users + 1) as nat));
    }

    /// Makes one process less use a table.
    pub fn release(&mut self, table: usize)
        requires
            old(self).wf(),
            old(self).in_use(table),
        ensures
            final(self).wf(),
            final(self)@ == with_users(
                old(self)@,
                table as int,
                (old(self)@[table as int].users - 1) as nat,
            ),
    {
        let users: usize = self.tables[table].users;
        self.tables[table].users = users - 1;
        assert(self@ =~= with_users(old(self)@, table as int, (users - 1) as nat));
    }

    /// Returns the handler of a table for the given signal.
    pub fn get(&self, table: usize, sig: &Signal) -> (res: SignalHandler)
        requires
            self.wf(),
            self.in_use(table),
        ensures
            res == self@[table as int].handlers[sig.id() as int],
    {
        let id: usize = sig.get_id() as usize;
        assert(self@[table as int].handlers.len() == SIGNALS_COUNT);
        self.tables[table].handlers[id]
    }

    /// Sets the handler of a table for the given signal.
    pub fn set(&mut self, table: usize, sig: &Signal, handler: SignalHandler)
        requires
            old(self).wf(),
            old(self).in_use(table),
        ensures
            final(self).wf(),
            final(self)@ == with_handler(old(self)@, table as int, *sig, handler),
    {
        let id: usize = sig.get_id() as usize;
        assert(self@[table as int].handlers.len() == SIGNALS_COUNT);
        self.tables[table].handlers[id] = handler;
        assert(self@ =~= with_handler(old(self)@, table as int, *sig, handler));
    }
}

/// The tables after one was added at index `i`, the lowest that is free, for
/// one process.
pub open spec fn added(
    before: Seq<HandlerTableView>,
    after: Seq<HandlerTableView>,
    i: int,
    handlers: Seq<SignalHandler>,
) -> bool {
    let table = HandlerTableView { handlers, users: 1 };
    &&& 0 <= i <= before.len()
    &&& forall|j: int| 0 <= j < i ==> (#[trigger] before[j]).users > 0
    &&& if i < before.len() {
        before[i].users == 0 && after == before.update(i, table)
    } else {
        after == before.push(table)
    }
}

/// The tables, with the number of processes that use one of them changed.
pub open spec fn with_users(
    tables: Seq<HandlerTableView>,
    i: int,
    users: nat,
) -> Seq<HandlerTableView> {
    tables.update(i, HandlerTableView { users, ..tables[i] })
}

/// The tables, with one handler of one of them changed.
pub open spec fn with_handler(
    tables: Seq<HandlerTableView>,
    i: int,
    sig: Signal,
    handler: SignalHandler,
) -> Seq<HandlerTableView> {
    tables.update(
        i,
        HandlerTableView {
            handlers: tables[i].handlers.update(sig.id() as int, handler),
            ..tables[i]
        },
    )
}

} // verus!
