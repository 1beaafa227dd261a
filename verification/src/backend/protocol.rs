//! What holds of every run of a thread, whatever the guest and the host do.

use vstd::prelude::*;
use crate::backend::error::EnterError;
use crate::backend::lifecycle::{Exit, Machine, ThreadState};
use crate::sallyport::{Message, Reply, Request};

verus! {

/// One move in the run of a thread.
pub enum Step {
    /// The host enters the thread.
    Resume,
    /// The guest yields.
    Suspend(Exit),
    /// The host answers in the block.
    Respond(Reply),
}

impl Machine {
    /// The machine after one move. A guest that does not run cannot yield,
    /// and the host holds the block only while the guest waits for it: a move
    /// that is out of turn changes nothing.
    pub open spec fn step(self, step: Step) -> Machine {
        match step {
            Step::Resume => self.resume().0,
            Step::Suspend(exit) => if self.state is Running {
                self.suspend(exit)
            } else {
                self
            },
            Step::Respond(reply) => if self.state is AwaitingService {
                self.respond(reply)
            } else {
                self
            },
        }
    }

    /// The machine after the first `n` of `steps`.
    pub open spec fn after(self, steps: Seq<Step>, n: int) -> Machine
        decreases n,
    {
        if n <= 0 {
            self
        } else {
            self.after(steps, n - 1).step(steps[n - 1])
        }
    }

    /// Whether `step`, made now, hands a request to the host.
    pub open spec fn requests(self, step: Step) -> bool {
        self.state is Running && step matches Step::Suspend(Exit::SysCall(_))
    }

    /// Whether `step`, made now, lets the guest run on with the host's reply.
    pub open spec fn delivers(self, step: Step) -> bool {
        step is Resume && self.resume().1 matches Ok(Some(_))
    }

    /// Whether `step`, made now, puts a reply in the place of a request.
    pub open spec fn services(self, step: Step) -> bool {
        step is Respond && self.state is AwaitingService && self.block is Request
    }
}

/// The block holds something only while the guest waits for the host, and
/// every move keeps it so.
pub proof fn lemma_step_keeps_wf(m: Machine, step: Step)
    requires
        m.wf(),
    ensures
        m.step(step).wf(),
{
}

/// A request reaches the host when the guest makes it and as the guest made
/// it: the move that yields with a request leaves that request, and nothing
/// else, in the block. With [`lemma_one_request_at_a_time`] this gives the
/// host the guest's requests one by one in the order in which they were made.
pub proof fn lemma_request_handed_as_made(m: Machine, steps: Seq<Step>, i: int, request: Request)
    requires
        0 <= i < steps.len(),
        m.after(steps, i).state is Running,
        steps[i] == Step::Suspend(Exit::SysCall(request)),
    ensures
        m.after(steps, i).requests(steps[i]),
        m.after(steps, i + 1) == (Machine {
            state: ThreadState::AwaitingService,
            block: Message::Request(request),
        }),
{
}

/// While no entry has let the guest run on with a reply, a guest that asked
/// for a call stays parked.
proof fn lemma_parked_until_delivery(m: Machine, steps: Seq<Step>, i: int, n: int)
    requires
        0 <= i < n <= steps.len(),
        m.after(steps, i).requests(steps[i]),
        forall|k: int| i < k < n ==> !m.after(steps, k).delivers(steps[k]),
    ensures
        m.after(steps, n).state is AwaitingService,
    decreases n,
{
    if n > i + 1 {
        lemma_parked_until_delivery(m, steps, i, n - 1);
        assert(!m.after(steps, n - 1).delivers(steps[n - 1]));
    }
}

/// While the host has not answered, the request stays in the block.
proof fn lemma_request_stays_until_service(m: Machine, steps: Seq<Step>, i: int, n: int)
    requires
        0 <= i < n <= steps.len(),
        m.after(steps, i).requests(steps[i]),
        forall|r: int| i < r < n ==> !m.after(steps, r).services(steps[r]),
    ensures
        m.after(steps, n) == m.after(steps, i + 1),
        m.after(steps, n).state is AwaitingService,
        m.after(steps, n).block is Request,
    decreases n,
{
    if n > i + 1 {
        lemma_request_stays_until_service(m, steps, i, n - 1);
        assert(!m.after(steps, n - 1).services(steps[n - 1]));
    }
}

/// A thread never hands out two requests in a row: between any two of them
/// the host has answered the first, and an entry after that answer has let
/// the guest run on with it.
pub proof fn lemma_one_request_at_a_time(m: Machine, steps: Seq<Step>, i: int, j: int)
    requires
        0 <= i < j < steps.len(),
        m.after(steps, i).requests(steps[i]),
        m.after(steps, j).requests(steps[j]),
    ensures
        exists|r: int, k: int|
            i < r < k < j && #[trigger] m.after(steps, r).services(steps[r])
                && #[trigger] m.after(steps, k).delivers(steps[k]),
{
    if forall|k: int| i < k < j ==> !m.after(steps, k).delivers(steps[k]) {
        lemma_parked_until_delivery(m, steps, i, j);
        assert(false);
    }
    let k = choose|k: int| i < k < j && m.after(steps, k).delivers(steps[k]);
    if forall|r: int| i < r < k ==> !m.after(steps, r).services(steps[r]) {
        lemma_request_stays_until_service(m, steps, i, k);
        assert(false);
    }
    let r = choose|r: int| i < r < k && m.after(steps, r).services(steps[r]);
    assert(m.after(steps, r).services(steps[r]) && m.after(steps, k).delivers(steps[k]));
}

/// The guest's own ways out both end in the final state.
pub proof fn lemma_exit_and_fault_are_final(m: Machine, cause: String)
    ensures
        m.suspend(Exit::Terminated).state is Exited,
        m.suspend(Exit::Fault(cause)).state is Exited,
{
}

/// Once a thread has exited nothing moves it: whatever is tried, and however
/// often, the thread stays as it is, every entry is refused, and no request
/// comes out of it.
pub proof fn lemma_exited_is_final(m: Machine, steps: Seq<Step>, n: int)
    requires
        m.state is Exited,
        0 <= n <= steps.len(),
    ensures
        m.after(steps, n) == m,
        m.after(steps, n).resume() == (m, Err::<Option<Reply>, EnterError>(EnterError::TerminalState)),
        forall|step: Step| !m.after(steps, n).requests(step),
    decreases n,
{
    if n > 0 {
        lemma_exited_is_final(m, steps, n - 1);
    }
}

/// The guest finds the host's reply exactly as the host wrote it. A request
/// replaces whatever the block held, it stays until the host answers, and the
/// entry that delivers the reply leaves the block empty.
pub proof fn lemma_round_trip(m: Machine, request: Request, reply: Reply)
    requires
        m.state is Running,
    ensures
        m.suspend(Exit::SysCall(request)).block == Message::Request(request),
        m.suspend(Exit::SysCall(request)).respond(reply).resume() == (
            Machine { state: ThreadState::Running, block: Message::Idle },
            Ok::<Option<Reply>, EnterError>(Some(reply)),
        ),
{
}

/// An entry on a request that the host has not answered is refused and
/// changes nothing, so the guest never runs on without its reply.
pub proof fn lemma_unanswered_is_refused(m: Machine)
    requires
        m.state is AwaitingService,
        !(m.block is Reply),
    ensures
        m.resume() == (m, Err::<Option<Reply>, EnterError>(EnterError::HostResourceError)),
{
}

} // verus!
