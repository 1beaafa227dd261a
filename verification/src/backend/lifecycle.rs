//! The life cycle of one thread in a keep.
//!
//! An entry into a thread has two halves with the guest's run between them.
//! [`Lifecycle::resume`] decides whether the guest may run and what it finds
//! in the block; [`Lifecycle::suspend`] takes the way in which the guest
//! yielded and decides what the host is told. The isolation technology runs
//! the guest between the two.

use vstd::prelude::*;
use crate::backend::Command;
use crate::backend::error::EnterError;
use crate::sallyport::{Block, Message, Reply, Request};

verus! {

/// Where a thread stands in its life.
#[derive(Clone, Copy, Debug, PartialEq, Eq, Structural)]
pub enum ThreadState {
    /// Constructed and never entered.
    Ready,
    /// The guest runs, or has yielded without asking anything of the host.
    Running,
    /// The guest has made a request and waits for the host's reply.
    AwaitingService,
    /// The guest has terminated or faulted. This state is final.
    Exited,
}

/// The way in which a running guest gave up control.
#[derive(Clone, Debug, PartialEq, Eq)]
pub enum Exit {
    /// The guest asks the host to make a call for it.
    SysCall(Request),
    /// Something happened that the technology resolved by itself.
    Handled,
    /// The guest signals that it has finished.
    Terminated,
    /// The guest did what the technology forbids, or the technology reports
    /// corruption. The text is the cause as the technology gave it.
    Fault(String),
}

/// The mathematical model of a thread: its state and what its block holds.
pub struct Machine {
    pub state: ThreadState,
    pub block: Message,
}

impl Machine {
    /// The block holds something only while the guest waits for the host.
    pub open spec fn wf(self) -> bool {
        self.state is AwaitingService || self.block is Idle
    }

    /// The first half of an entry: the machine afterwards, and what the guest
    /// finds in the block if it may run.
    pub open spec fn resume(self) -> (Machine, Result<Option<Reply>, EnterError>) {
        match self.state {
            ThreadState::Exited => (self, Err(EnterError::TerminalState)),
            ThreadState::AwaitingService => match self.block {
                Message::Reply(reply) => (
                    Machine { state: ThreadState::Running, block: Message::Idle },
                    Ok(Some(reply)),
                ),
                _ => (self, Err(EnterError::HostResourceError)),
            },
            _ => (Machine { state: ThreadState::Running, block: self.block }, Ok(None)),
        }
    }

    /// The second half of an entry: the machine once the guest has yielded
    /// with `exit`, before the host touches the block.
    pub open spec fn suspend(self, exit: Exit) -> Machine
        recommends
            self.state is Running,
    {
        match exit {
            Exit::SysCall(request) => Machine {
                state: ThreadState::AwaitingService,
                block: Message::Request(request),
            },
            Exit::Handled => self,
            _ => Machine { state: ThreadState::Exited, block: self.block },
        }
    }

    /// The machine after the host has tried to answer with `reply`.
    pub open spec fn respond(self, reply: Reply) -> Machine {
        Machine { state: self.state, block: self.block.answered(reply) }
    }
}

/// The state of one thread and its block.
pub struct Lifecycle {
    state: ThreadState,
    block: Block,
}

impl View for Lifecycle {
    type V = Machine;

    closed spec fn view(&self) -> Machine {
        Machine { state: self.state, block: self.block@ }
    }
}

impl Lifecycle {
    /// A thread that was never entered, with an empty block.
    pub fn new() -> (life: Lifecycle)
        ensures
            life@ == (Machine { state: ThreadState::Ready, block: Message::Idle }),
    {
        Lifecycle { state: ThreadState::Ready, block: Block::new() }
    }

    /// Where the thread stands.
    pub fn state(&self) -> (state: ThreadState)
        ensures
            state == self@.state,
    {
        self.state
    }

    /// The thread's block, to look at.
    pub fn block(&self) -> (block: &Block)
        ensures
            block@ == self@.block,
    {
        &self.block
    }

    /// The block, for the host to answer in, while the guest waits for a
    /// reply. At any other time the host has no business with the block and
    /// gets none.
    pub fn awaiting(&mut self) -> (lent: Option<&mut Block>)
        ensures
            match lent {
                Some(block) => {
                    &&& old(self)@.state is AwaitingService
                    &&& block@ == old(self)@.block
                    &&& final(self)@ == (Machine {
                        state: ThreadState::AwaitingService,
                        block: final(block)@,
                    })
                },
                None => !(old(self)@.state is AwaitingService) && final(self)@ == old(self)@,
            },
    {
        match self.state {
            ThreadState::AwaitingService => Some(&mut self.block),
            _ => None,
        }
    }

    /// The first half of an entry. On `Ok` the guest is to be run, and the
    /// value is the host's reply that it finds, if it had asked for one.
    /// On `Err` the guest must not be run.
    pub fn resume(&mut self) -> (res: Result<Option<Reply>, EnterError>)
        ensures
            final(self)@ == old(self)@.resume().0,
            res == old(self)@.resume().1,
    {
        match self.state {
            ThreadState::Exited => Err(EnterError::TerminalState),
            ThreadState::AwaitingService => match self.block.collect() {
                Some(reply) => {
                    self.state = ThreadState::Running;
                    Ok(Some(reply))
                },
                None => Err(EnterError::HostResourceError),
            },
            _ => {
                self.state = ThreadState::Running;
                Ok(None)
            },
        }
    }

    /// The second half of an entry: the guest has yielded with `exit`.
    ///
    /// A request is written into the block, over whatever the block held, and
    /// the block is lent to the host until the next entry. A guest that has
    /// finished asks nothing of the host, and the next entry is refused. A
    /// fault keeps its cause.
    pub fn suspend(&mut self, exit: Exit) -> (res: Result<Command<'_>, EnterError>)
        requires
            old(self)@.state is Running,
        ensures
            match res {
                Ok(Command::SysCall(block)) => {
                    &&& exit is SysCall
                    &&& block@ == old(self)@.suspend(exit).block
                    &&& final(self)@ == (Machine {
                        state: ThreadState::AwaitingService,
                        block: final(block)@,
                    })
                },
                Ok(Command::Continue) => {
                    &&& exit is Handled || exit is Terminated
                    &&& final(self)@ == old(self)@.suspend(exit)
                },
                Err(error) => {
                    &&& exit matches Exit::Fault(cause)
                    &&& error == EnterError::Fault(cause)
                    &&& final(self)@ == old(self)@.suspend(exit)
                },
            },
    {
        match exit {
            Exit::SysCall(request) => {
                self.state = ThreadState::AwaitingService;
                self.block.post(request);
                Ok(Command::SysCall(&mut self.block))
            },
            Exit::Handled => Ok(Command::Continue),
            Exit::Terminated => {
                self.state = ThreadState::Exited;
                Ok(Command::Continue)
            },
            Exit::Fault(cause) => {
                self.state = ThreadState::Exited;
                Err(EnterError::Fault(cause))
            },
        }
    }
}

} // verus!
