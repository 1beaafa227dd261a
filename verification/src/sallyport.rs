//! The block shared between a thread in a keep and its host.
//!
//! The block carries one call at a time. The guest's request and the host's
//! reply occupy the same slot: a reply replaces the request that it answers,
//! and a new request replaces whatever was there before.

use vstd::prelude::*;

verus! {

/// One argument of a forwarded call.
#[derive(Clone, Debug, PartialEq, Eq)]
pub enum Arg {
    /// A register value.
    Value(u64),
    /// A copy of the guest memory that the argument refers to. The host never
    /// follows a pointer of the guest: what it may inspect is copied here.
    Buffer(Vec<u8>),
}

/// A call that the guest asks the host to make on its behalf.
#[derive(Clone, Debug, PartialEq, Eq)]
pub struct Request {
    /// The number of the call.
    pub num: u64,
    /// The arguments, in the order of the call's parameters.
    pub args: Vec<Arg>,
}

/// The host's answer to a request: a return value or an error number.
#[derive(Clone, Copy, Debug, PartialEq, Eq, Structural)]
pub enum Reply {
    /// The call succeeded with this value.
    Value(u64),
    /// The call failed with this error number.
    Error(u32),
}

/// What the block holds at one instant.
#[derive(Clone, Debug, PartialEq, Eq)]
pub enum Message {
    /// Nothing: no call is in flight.
    Idle,
    /// A request that the host has not answered yet.
    Request(Request),
    /// The answer to the request that stood here before it.
    Reply(Reply),
}

impl Message {
    /// The message after the host has tried to answer with `reply`: the reply
    /// takes the place of an outstanding request, and nothing else changes.
    pub open spec fn answered(self, reply: Reply) -> Message {
        if self is Request {
            Message::Reply(reply)
        } else {
            self
        }
    }
}

/// The shared block. It holds at most one outstanding request, and the only
/// change that the host can make to it is to answer that request.
#[derive(Debug, PartialEq, Eq)]
pub struct Block {
    msg: Message,
}

impl View for Block {
    type V = Message;

    closed spec fn view(&self) -> Message {
        self.msg
    }
}

impl Block {
    /// A block with no call in flight.
    pub fn new() -> (block: Block)
        ensures
            block@ is Idle,
    {
        Block { msg: Message::Idle }
    }

    /// The outstanding request, if there is one.
    pub fn request(&self) -> (pending: Option<&Request>)
        ensures
            match pending {
                Some(request) => self@ == Message::Request(*request),
                None => !(self@ is Request),
            },
    {
        match &self.msg {
            Message::Request(request) => Some(request),
            _ => None,
        }
    }

    /// The reply that waits for the guest, if there is one.
    pub fn reply(&self) -> (written: Option<Reply>)
        ensures
            match written {
                Some(reply) => self@ == Message::Reply(reply),
                None => !(self@ is Reply),
            },
    {
        match &self.msg {
            Message::Reply(reply) => Some(*reply),
            _ => None,
        }
    }

    /// Answers the outstanding request. Returns whether there was one; if
    /// there was none the block is left as it was.
    pub fn respond(&mut self, reply: Reply) -> (done: bool)
        ensures
            done == (old(self)@ is Request),
            final(self)@ == old(self)@.answered(reply),
    {
        match &self.msg {
            Message::Request(_) => {
                self.msg = Message::Reply(reply);
                true
            },
            _ => false,
        }
    }

    /// Writes the guest's request into the block, over whatever it held.
    pub(crate) fn post(&mut self, request: Request)
        ensures
            final(self)@ == Message::Request(request),
    {
        self.msg = Message::Request(request);
    }

    /// Takes the reply out of the block for the guest. Without a reply the
    /// block is left as it was.
    pub(crate) fn collect(&mut self) -> (taken: Option<Reply>)
        ensures
            match taken {
                Some(reply) => old(self)@ == Message::Reply(reply) && final(self)@ is Idle,
                None => !(old(self)@ is Reply) && final(self)@ == old(self)@,
            },
    {
        match &self.msg {
            Message::Reply(reply) => {
                let reply = *reply;
                self.msg = Message::Idle;
                Some(reply)
            },
            _ => None,
        }
    }
}

} // verus!
