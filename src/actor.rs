//! The actor's side of the protocol: what it does with each message it takes
//! from its mailbox, and the reply it sends back.
use vstd::prelude::*;
use crate::mailbox::{Mailbox, MailEvent, MailOp, Recv, step};

verus! {

/// One pending lookup: the text to look up, and where its single reply goes.
pub struct Request<C> {
    pub input: String,
    pub reply_to: C,
}

/// The reply to one lookup: the engine's results, in its order, and how long
/// the lookup took, in nanoseconds.
pub struct LookupReply<R> {
    pub results: Vec<R>,
    pub lookup_duration: u64,
}

/// What the actor does next.
pub enum ActorAction<C> {
    /// Look the request up, then send the reply. Where the caller has given
    /// up waiting, the reply is dropped and the actor carries on.
    Lookup(Request<C>),
    /// Nothing waits: wait for a message.
    Wait,
    /// The mailbox is closed and drained: stop, and hand the engine back.
    Stop,
}

/// The action that a take from the mailbox leads to.
pub open spec fn action_of<C>(e: MailEvent<Request<C>>, a: ActorAction<C>) -> bool {
    match e {
        MailEvent::Delivered(m) => a == ActorAction::Lookup(m),
        MailEvent::Closed => a == ActorAction::<C>::Stop,
        _ => a == ActorAction::<C>::Wait,
    }
}

/// Takes the oldest request from the mailbox and decides what the actor does
/// with it. Requests are served strictly in the order in which they entered;
/// the actor stops only once the mailbox is closed and every request that
/// entered before that has been taken.
pub fn next_action<C>(mailbox: &mut Mailbox<Request<C>>) -> (r: ActorAction<C>)
    requires
        old(mailbox).wf(),
    ensures
        final(mailbox).wf(),
        final(mailbox)@ == step(old(mailbox)@, MailOp::Recv).0,
        action_of(step(old(mailbox)@, MailOp::Recv).1, r),
{
    match mailbox.recv() {
        Recv::Message(m) => ActorAction::Lookup(m),
        Recv::Empty => ActorAction::Wait,
        Recv::Closed => ActorAction::Stop,
    }
}

/// The reply to a lookup that began at `started_at` and ended at
/// `finished_at`, both read from one monotonic clock in nanoseconds.
pub fn finish_lookup<R>(results: Vec<R>, started_at: u64, finished_at: u64) -> (r: LookupReply<R>)
    requires
        started_at <= finished_at,
    ensures
        r.results == results,
        r.lookup_duration == finished_at - started_at,
{
    LookupReply { results, lookup_duration: finished_at - started_at }
}

} // verus!
