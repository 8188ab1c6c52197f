//! The caller's side of the protocol: offering a request to the mailbox, and
//! waiting for a slot while the mailbox is full.
use vstd::prelude::*;
use crate::mailbox::{Mailbox, MailEvent, MailOp, TrySendError, step};
use crate::timing::Waited;

verus! {

/// What an attempt to submit came to.
#[derive(Debug, Clone, Copy, PartialEq, Eq, Structural)]
pub enum SubmitStep {
    /// The request is in the queue since `entered_at`. `before_queue` says
    /// whether the caller had to wait for a slot first, and for how long.
    Entered { before_queue: Waited, entered_at: u64 },
    /// The queue is full: wait until a slot frees, then attempt again.
    Wait,
    /// The mailbox is closed: the request was dropped, and the lookup fails.
    Closed,
}

/// A request on its way into the mailbox.
pub struct Submission<T> {
    message: Option<T>,
    started_at: u64,
    blocked: bool,
}

impl<T> Submission<T> {
    /// The message not yet in the queue, if any.
    pub closed spec fn message(&self) -> Option<T> {
        self.message
    }

    /// When the first attempt was made.
    pub closed spec fn started_at(&self) -> u64 {
        self.started_at
    }

    /// Whether an attempt found the queue full.
    pub closed spec fn blocked(&self) -> bool {
        self.blocked
    }

    /// A submission of `message`, begun at `now`.
    pub fn new(message: T, now: u64) -> (r: Submission<T>)
        ensures
            r.message() == Some(message),
            r.started_at() == now,
            !r.blocked(),
    {
        Submission { message: Some(message), started_at: now, blocked: false }
    }

    /// Offers the message to `mailbox` at `now`, without waiting. Where it
    /// enters on the first attempt, the caller did not wait before the queue;
    /// where it enters on a later one, the caller waited from the first
    /// attempt until `now`.
    pub fn attempt(&mut self, mailbox: &mut Mailbox<T>, now: u64) -> (r: SubmitStep)
        requires
            old(self).message() is Some,
            old(self).started_at() <= now,
            old(mailbox).wf(),
        ensures
            final(mailbox).wf(),
            final(mailbox)@ == step(old(mailbox)@, MailOp::Send(old(self).message().unwrap())).0,
            final(self).started_at() == old(self).started_at(),
            match step(old(mailbox)@, MailOp::Send(old(self).message().unwrap())).1 {
                MailEvent::Accepted(_) => {
                    &&& r == SubmitStep::Entered {
                        before_queue: if old(self).blocked() {
                            Waited::Yes((now - old(self).started_at()) as u64)
                        } else {
                            Waited::No
                        },
                        entered_at: now,
                    }
                    &&& final(self).message() is None
                },
                MailEvent::Full(_) => {
                    &&& r == SubmitStep::Wait
                    &&& final(self).message() == old(self).message()
                    &&& final(self).blocked()
                },
                _ => {
                    &&& r == SubmitStep::Closed
                    &&& final(self).message() is None
                },
            },
    {
        let msg = self.message.take().unwrap();
        match mailbox.try_send(msg) {
            Ok(()) => {
                let before_queue = if self.blocked {
                    Waited::Yes(now - self.started_at)
                } else {
                    Waited::No
                };
                SubmitStep::Entered { before_queue, entered_at: now }
            },
            Err(TrySendError::Full(m)) => {
                self.message = Some(m);
                self.blocked = true;
                SubmitStep::Wait
            },
            Err(TrySendError::Closed(_m)) => SubmitStep::Closed,
        }
    }
}

} // verus!
