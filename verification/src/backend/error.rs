//! What can go wrong when a keep is built and when a thread is entered.

use vstd::prelude::*;
use crate::backend::Datum;
use crate::backend::probe::{all_pass, first_failure, is_first_failure, supported};

verus! {

/// Why a keep or a thread could not be constructed.
#[derive(Clone, Copy, Debug, PartialEq, Eq, Structural)]
pub enum ConstructionError {
    /// The host process lacks a privilege that the technology asks for.
    InsufficientPrivilege,
    /// A resource of the host or of the technology is used up.
    ResourceExhausted,
    /// The platform lacks a feature that the technology needs.
    FeatureMissing,
}

/// A failed attempt to build a keep: which backend failed, why, and what the
/// platform checks of that backend said at the time.
#[derive(Clone, Debug, PartialEq, Eq)]
pub struct BuildError {
    /// The name of the backend that failed.
    pub backend: String,
    /// Why the build failed.
    pub cause: ConstructionError,
    /// The platform checks of the backend, in the order it reports them.
    pub data: Vec<Datum>,
}

impl BuildError {
    /// Whether the platform does not support the backend at all, as opposed
    /// to a supported backend on which this one launch failed.
    pub fn unsupported(&self) -> (no: bool)
        ensures
            no == !supported(self.data@),
    {
        !all_pass(&self.data)
    }

    /// The first failing check, which is the one to show first.
    pub fn root_cause(&self) -> (found: Option<&Datum>)
        ensures
            match found {
                Some(datum) => exists|i: int|
                    is_first_failure(self.data@, i) && *datum == self.data@[i],
                None => supported(self.data@),
            },
    {
        match first_failure(&self.data) {
            Some(i) => Some(&self.data[i]),
            None => None,
        }
    }
}

/// Why an entry into a thread failed.
#[derive(Clone, Debug, PartialEq, Eq)]
pub enum EnterError {
    /// The thread has exited and cannot be entered again.
    TerminalState,
    /// The guest did what the isolation technology forbids, or the technology
    /// reports corruption. The text is the cause as the technology gave it.
    /// The thread has exited.
    Fault(String),
    /// The host has not answered the outstanding request. The guest is still
    /// parked; the host may answer and enter again.
    HostResourceError,
}

} // verus!
