//! The interface between a host and the isolation technologies.

pub mod error;
pub mod hosted;
pub mod lifecycle;
pub mod probe;
pub mod protocol;
pub mod slots;

use std::path::Path;
use std::sync::Arc;
use vstd::prelude::*;
use crate::backend::error::{BuildError, ConstructionError, EnterError};
use crate::backend::lifecycle::ThreadState;
use crate::backend::probe::{all_pass, supported};
use crate::binary::Component;
use crate::sallyport::Block;

verus! {

/// `std::path::Path`, which is only handed on to the backend that is asked
/// to build. Nothing is claimed of it.
#[verifier::external_type_specification]
#[verifier::external_body]
pub struct ExPath(Path);

/// One isolation technology.
pub trait Backend {
    /// The names that the backend may go by. An implementation that says
    /// nothing here promises nothing of its name.
    open spec fn is_named(&self, name: Seq<char>) -> bool {
        true
    }

    /// The lists of checks that a probe of the platform may report. The
    /// platform can change between two probes, so this is a set of lists and
    /// not one list. An implementation that says nothing here promises
    /// nothing of its reports.
    open spec fn may_report(&self, data: Seq<Datum>) -> bool {
        true
    }

    /// The name of the backend
    fn name(&self) -> (name: &'static str)
        ensures
            self.is_named(name@),
    ;

    /// Whether or not the platform has support for this keep type: the
    /// verdict on one fresh probe.
    fn have(&self) -> (ok: bool)
        ensures
            exists|data: Seq<Datum>| #[trigger] self.may_report(data) && ok == supported(data),
    {
        let data = self.data();
        all_pass(&data)
    }

    /// The tests that show platform support for the backend, the more
    /// fundamental ones first. Probed anew at every call.
    fn data(&self) -> (data: Vec<Datum>)
        ensures
            self.may_report(data@),
    ;

    /// Create a keep instance on this backend, loaded with `code`. `sock` is
    /// the path of a control channel for backends that use one.
    ///
    /// A keep is built only on a platform that can pass every check. A
    /// failure names the backend and carries what its checks reported.
    fn build(&self, code: Vec<Component>, sock: Option<&Path>) -> (res: Result<
        Arc<dyn Keep>,
        BuildError,
    >)
        ensures
            match res {
                Ok(_) => exists|data: Seq<Datum>| #[trigger]
                    self.may_report(data) && supported(data),
                Err(error) => self.is_named(error.backend@) && self.may_report(error.data@),
            },
    ;
}

/// The outcome of one check of the host platform.
#[derive(Clone, Debug, PartialEq, Eq)]
pub struct Datum {
    /// The name of this datum.
    pub name: String,
    /// Whether the datum indicates support for the platform or not.
    pub pass: bool,
    /// Short additional information to display to the user.
    pub info: Option<String>,
    /// Longer explanatory message on how to resolve problems.
    pub mesg: Option<String>,
}

/// A running isolated environment. It lives at least as long as each of its
/// threads.
pub trait Keep {
    /// Creates a new thread in the keep. The thread has not been entered.
    fn add_thread(self: Arc<Self>) -> (res: Result<Box<dyn Thread>, ConstructionError>)
        ensures
            res matches Ok(thread) ==> thread.state() is Ready,
    ;
}

/// One execution context in a keep.
pub trait Thread {
    /// Where the thread stands in its life.
    spec fn state(&self) -> ThreadState;

    /// Enters the keep: the guest runs until it asks for a call or gives up
    /// control in another way.
    ///
    /// A thread that has exited refuses every entry. A fault ends the thread.
    /// While the host holds the block the guest waits, and an entry that the
    /// host cannot complete leaves the thread where it was.
    fn enter(&mut self) -> (res: Result<Command<'_>, EnterError>)
        ensures
            match res {
                Ok(Command::SysCall(block)) => {
                    &&& !(old(self).state() is Exited)
                    &&& block@ is Request
                    &&& final(self).state() is AwaitingService
                },
                Ok(Command::Continue) => {
                    &&& !(old(self).state() is Exited)
                    &&& final(self).state() is Running || final(self).state() is Exited
                },
                Err(EnterError::TerminalState) => {
                    &&& old(self).state() is Exited
                    &&& final(self).state() is Exited
                },
                Err(EnterError::Fault(_)) => {
                    &&& !(old(self).state() is Exited)
                    &&& final(self).state() is Exited
                },
                Err(EnterError::HostResourceError) => {
                    &&& !(old(self).state() is Exited)
                    &&& final(self).state() == old(self).state()
                },
            },
    ;
}

/// What the host is to do after an entry into a thread.
pub enum Command<'a> {
    /// The guest asks for a call. The block holds the request; the host
    /// answers it in the block and enters the thread again.
    SysCall(&'a mut Block),
    /// Nothing is asked of the host: enter the thread again.
    Continue,
}

} // verus!
