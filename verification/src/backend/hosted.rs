//! A thread made of a guest that some isolation technology runs and of the
//! life cycle that every technology shares.

use vstd::prelude::*;
use crate::backend::{Command, Thread};
use crate::backend::error::EnterError;
use crate::backend::lifecycle::{Exit, Lifecycle, Machine, ThreadState};
use crate::sallyport::{Block, Message, Reply};

verus! {

/// What an isolation technology does for one thread: it runs the guest.
pub trait Guest {
    /// Runs the guest until it gives up control, and reports how it did.
    /// `reply` is the host's answer to the guest's last request, where the
    /// guest waited for one. Nothing is assumed of the guest: whatever is
    /// reported, the thread keeps to its life cycle.
    fn run(&mut self, reply: Option<Reply>) -> Exit;
}

/// A thread whose guest is run by `G`.
pub struct Hosted<G: Guest> {
    life: Lifecycle,
    guest: G,
}

impl<G: Guest> View for Hosted<G> {
    type V = Machine;

    closed spec fn view(&self) -> Machine {
        self.life@
    }
}

impl<G: Guest> Hosted<G> {
    /// The guest of the thread, as it stands now. Only a run changes it.
    pub closed spec fn the_guest(&self) -> G {
        self.guest
    }

    /// A thread for `guest`, not entered yet.
    pub fn new(guest: G) -> (thread: Self)
        ensures
            thread@ == (Machine { state: ThreadState::Ready, block: Message::Idle }),
            thread.the_guest() == guest,
    {
        Hosted { life: Lifecycle::new(), guest }
    }

    /// The state and the block of the thread, to look at.
    pub fn life(&self) -> (life: &Lifecycle)
        ensures
            life@ == self@,
    {
        &self.life
    }

    /// The block, for the host to answer in, while the guest waits for a
    /// reply; at any other time, nothing.
    pub fn awaiting(&mut self) -> (lent: Option<&mut Block>)
        ensures
            match lent {
                Some(block) => {
                    &&& old(self)@.state is AwaitingService
                    &&& block@ == old(self)@.block
                    &&& final(self)@ == (Machine {
                        state: ThreadState::AwaitingService,
                        block: final(block)@,
                    })
                },
                None => !(old(self)@.state is AwaitingService) && final(self)@ == old(self)@,
            },
            final(self).the_guest() == old(self).the_guest(),
    {
        self.life.awaiting()
    }

    /// The guest, to look at.
    pub fn guest(&self) -> (guest: &G)
        ensures
            *guest == self.the_guest(),
    {
        &self.guest
    }
}

impl<G: Guest> Thread for Hosted<G> {
    open spec fn state(&self) -> ThreadState {
        self@.state
    }

    /// The guest runs only if the first half of the entry allows it, and it
    /// is handed exactly the reply that the host left in the block. A request
    /// reaches the host in the block as the guest made it. A refused entry
    /// leaves the guest as it was.
    fn enter(&mut self) -> (res: Result<Command<'_>, EnterError>)
        ensures
            match res {
                Ok(Command::SysCall(block)) => {
                    &&& old(self)@.resume().1 is Ok
                    &&& block@ is Request
                    &&& final(self)@ == (Machine {
                        state: ThreadState::AwaitingService,
                        block: final(block)@,
                    })
                },
                Ok(Command::Continue) => {
                    &&& old(self)@.resume().1 is Ok
                    &&& final(self)@.block == old(self)@.resume().0.block
                },
                Err(EnterError::Fault(_)) => {
                    &&& old(self)@.resume().1 is Ok
                    &&& final(self)@.block == old(self)@.resume().0.block
                },
                Err(error) => {
                    &&& old(self)@.resume().1 == Err::<Option<Reply>, EnterError>(error)
                    &&& final(self)@ == old(self)@
                    &&& final(self).the_guest() == old(self).the_guest()
                },
            },
    {
        match self.life.resume() {
            Ok(reply) => {
                let exit = self.guest.run(reply);
                self.life.suspend(exit)
            },
            Err(error) => Err(error),
        }
    }
}

} // verus!
