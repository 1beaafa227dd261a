//! The execution contexts that a keep can hold at one time.
//!
//! How many threads an isolation technology allows in one keep depends on
//! the technology. A keep counts its live threads here, and a thread is
//! added only while the count is below the limit.

use vstd::prelude::*;
use crate::backend::error::ConstructionError;

verus! {

/// The mathematical model of [`Slots`]: how many threads there may be, and how
/// many there are.
pub struct Census {
    pub limit: nat,
    pub live: nat,
}

impl Census {
    /// Never more threads than the limit allows.
    pub open spec fn wf(self) -> bool {
        self.live <= self.limit
    }

    /// Whether one more thread can be added.
    pub open spec fn admits(self) -> bool {
        self.live < self.limit
    }

    /// The census after an attempt to add a thread.
    pub open spec fn claim(self) -> Census {
        if self.admits() {
            Census { limit: self.limit, live: self.live + 1 }
        } else {
            self
        }
    }

    /// The census after one thread, if there is any, has gone.
    pub open spec fn release(self) -> Census {
        if self.live > 0 {
            Census { limit: self.limit, live: (self.live - 1) as nat }
        } else {
            self
        }
    }

    /// The census after `n` attempts in a row to add a thread.
    pub open spec fn claims(self, n: nat) -> Census
        decreases n,
    {
        if n == 0 {
            self
        } else {
            self.claims((n - 1) as nat).claim()
        }
    }
}

/// The count of the live threads of one keep, under a fixed limit.
#[derive(Debug)]
pub struct Slots {
    limit: usize,
    live: usize,
}

impl View for Slots {
    type V = Census;

    closed spec fn view(&self) -> Census {
        Census { limit: self.limit as nat, live: self.live as nat }
    }
}

impl Slots {
    #[verifier::type_invariant]
    spec fn inv(self) -> bool {
        self.live <= self.limit
    }

    /// No thread yet, and room for `limit` of them.
    pub fn new(limit: usize) -> (slots: Slots)
        ensures
            slots@ == (Census { limit: limit as nat, live: 0 }),
    {
        Slots { limit, live: 0 }
    }

    /// How many threads there may be at one time.
    pub fn limit(&self) -> (limit: usize)
        ensures
            limit == self@.limit,
    {
        self.limit
    }

    /// How many threads there are.
    pub fn live(&self) -> (live: usize)
        ensures
            live == self@.live,
            self@.wf(),
    {
        proof {
            use_type_invariant(self);
        }
        self.live
    }

    /// Whether no thread is left, so that the keep may be torn down.
    pub fn idle(&self) -> (idle: bool)
        ensures
            idle == (self@.live == 0),
    {
        self.live == 0
    }

    /// Takes a slot for one more thread. Fails, and changes nothing, when the
    /// limit is reached.
    pub fn claim(&mut self) -> (res: Result<(), ConstructionError>)
        ensures
            final(self)@ == old(self)@.claim(),
            res == if old(self)@.admits() {
                Ok::<(), ConstructionError>(())
            } else {
                Err::<(), ConstructionError>(ConstructionError::ResourceExhausted)
            },
    {
        proof {
            use_type_invariant(&*self);
        }
        if self.live < self.limit {
            self.live = self.live + 1;
            Ok(())
        } else {
            Err(ConstructionError::ResourceExhausted)
        }
    }

    /// Gives back the slot of a thread that has gone. Returns whether there
    /// was a live thread.
    pub fn release(&mut self) -> (released: bool)
        ensures
            final(self)@ == old(self)@.release(),
            released == (old(self)@.live > 0),
    {
        proof {
            use_type_invariant(&*self);
        }
        if self.live > 0 {
            self.live = self.live - 1;
            true
        } else {
            false
        }
    }
}

/// Attempts to add a thread succeed until the limit is reached and change
/// nothing from then on: after `n` attempts the count has grown by `n`, but
/// never beyond the limit.
pub proof fn lemma_claims_fill_to_limit(census: Census, n: nat)
    requires
        census.wf(),
    ensures
        census.claims(n).limit == census.limit,
        census.claims(n).live == if census.live + n <= census.limit {
            census.live + n
        } else {
            census.limit
        },
    decreases n,
{
    if n > 0 {
        lemma_claims_fill_to_limit(census, (n - 1) as nat);
    }
}

/// The attempt that follows `n` earlier ones succeeds exactly when those have
/// left room.
pub proof fn lemma_claim_succeeds_below_limit(census: Census, n: nat)
    requires
        census.wf(),
    ensures
        census.claims(n).admits() <==> census.live + n < census.limit,
{
    lemma_claims_fill_to_limit(census, n);
}

/// At the limit every further attempt fails and leaves the census as it is.
pub proof fn lemma_full_stays_full(census: Census, n: nat)
    requires
        census.live == census.limit,
    ensures
        census.claims(n) == census,
        !census.claims(n).admits(),
    decreases n,
{
    if n > 0 {
        lemma_full_stays_full(census, (n - 1) as nat);
    }
}

} // verus!
