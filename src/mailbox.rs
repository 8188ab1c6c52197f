//! The bounded first-in, first-out queue through which callers reach the
//! actor.
//!
//! The queue is described twice: as a mathematical state machine
//! ([`MailboxState`] and [`step`]), over which the laws of the queue are
//! proved for every sequence of operations, and as the executable
//! [`Mailbox`], each of whose operations is one step of that machine.
use vstd::prelude::*;
use std::collections::VecDeque;

verus! {

/// The abstract state of a mailbox.
pub struct MailboxState<T> {
    /// How many undelivered messages the mailbox may hold.
    pub capacity: nat,
    /// The undelivered messages, oldest first.
    pub pending: Seq<T>,
    /// Whether the mailbox has been closed to new messages.
    pub closed: bool,
}

impl<T> MailboxState<T> {
    /// A usable mailbox holds at least one slot and never more messages than
    /// slots.
    pub open spec fn wf(&self) -> bool {
        &&& self.capacity >= 1
        &&& self.pending.len() <= self.capacity
    }

    pub open spec fn is_full(&self) -> bool {
        self.pending.len() >= self.capacity
    }
}

/// An operation on a mailbox.
pub enum MailOp<T> {
    /// A caller offers a message without waiting.
    Send(T),
    /// The actor takes the oldest message, if any.
    Recv,
    /// The mailbox is closed to new messages.
    Close,
}

/// What an operation on a mailbox came to.
pub enum MailEvent<T> {
    /// The message entered the queue.
    Accepted(T),
    /// The queue had no free slot; the message is handed back.
    Full(T),
    /// The mailbox was closed; the message is handed back.
    Refused(T),
    /// The oldest message left the queue for the actor.
    Delivered(T),
    /// The queue is empty and still open: the actor has to wait.
    Empty,
    /// The queue is empty and closed: the actor is done.
    Closed,
    /// The mailbox was closed.
    Shut,
}

/// One transition of the mailbox: the state after `op`, and what `op` came to.
pub open spec fn step<T>(s: MailboxState<T>, op: MailOp<T>) -> (MailboxState<T>, MailEvent<T>) {
    match op {
        MailOp::Send(m) => {
            if s.closed {
                (s, MailEvent::Refused(m))
            } else if s.is_full() {
                (s, MailEvent::Full(m))
            } else {
                (MailboxState { pending: s.pending.push(m), ..s }, MailEvent::Accepted(m))
            }
        },
        MailOp::Recv => {
            if s.pending.len() > 0 {
                (MailboxState { pending: s.pending.drop_first(), ..s }, MailEvent::Delivered(s.pending[0]))
            } else if s.closed {
                (s, MailEvent::Closed)
            } else {
                (s, MailEvent::Empty)
            }
        },
        MailOp::Close => (MailboxState { closed: true, ..s }, MailEvent::Shut),
    }
}

/// The state after performing `ops` in order, starting from `s`.
pub open spec fn run<T>(s: MailboxState<T>, ops: Seq<MailOp<T>>) -> MailboxState<T>
    decreases ops.len(),
{
    if ops.len() == 0 {
        s
    } else {
        step(run(s, ops.drop_last()), ops.last()).0
    }
}

/// What each of `ops` came to, in order, starting from `s`.
pub open spec fn events<T>(s: MailboxState<T>, ops: Seq<MailOp<T>>) -> Seq<MailEvent<T>>
    decreases ops.len(),
{
    if ops.len() == 0 {
        Seq::empty()
    } else {
        events(s, ops.drop_last()).push(step(run(s, ops.drop_last()), ops.last()).1)
    }
}

/// The messages that entered the queue, in the order in which they entered.
pub open spec fn accepted<T>(evs: Seq<MailEvent<T>>) -> Seq<T>
    decreases evs.len(),
{
    if evs.len() == 0 {
        Seq::empty()
    } else {
        match evs.last() {
            MailEvent::Accepted(m) => accepted(evs.drop_last()).push(m),
            _ => accepted(evs.drop_last()),
        }
    }
}

/// The messages that the actor took, in the order in which it took them.
pub open spec fn delivered<T>(evs: Seq<MailEvent<T>>) -> Seq<T>
    decreases evs.len(),
{
    if evs.len() == 0 {
        Seq::empty()
    } else {
        match evs.last() {
            MailEvent::Delivered(m) => delivered(evs.drop_last()).push(m),
            _ => delivered(evs.drop_last()),
        }
    }
}

/// The messages that were handed back because the mailbox was closed.
pub open spec fn refused<T>(evs: Seq<MailEvent<T>>) -> Seq<T>
    decreases evs.len(),
{
    if evs.len() == 0 {
        Seq::empty()
    } else {
        match evs.last() {
            MailEvent::Refused(m) => refused(evs.drop_last()).push(m),
            _ => refused(evs.drop_last()),
        }
    }
}

/// The messages that `ops` offer, in order.
pub open spec fn offered<T>(ops: Seq<MailOp<T>>) -> Seq<T>
    decreases ops.len(),
{
    if ops.len() == 0 {
        Seq::empty()
    } else {
        match ops.last() {
            MailOp::Send(m) => offered(ops.drop_last()).push(m),
            _ => offered(ops.drop_last()),
        }
    }
}

/// Bounded memory: from a usable state, every sequence of operations leads to
/// a usable state of the same capacity, so the mailbox never holds more
/// undelivered messages than its capacity.
pub proof fn lemma_bounded<T>(s: MailboxState<T>, ops: Seq<MailOp<T>>)
    requires
        s.wf(),
    ensures
        run(s, ops).wf(),
        run(s, ops).capacity == s.capacity,
        run(s, ops).pending.len() <= s.capacity,
    decreases ops.len(),
{
    if ops.len() > 0 {
        lemma_bounded(s, ops.drop_last());
    }
}

/// First in, first out, and nothing lost: what was waiting at the start,
/// followed by every message that entered since, is exactly every message the
/// actor took since, in the same order, followed by what is still waiting.
/// From an empty mailbox, the actor therefore takes messages in the order in
/// which they entered.
pub proof fn lemma_fifo<T>(s: MailboxState<T>, ops: Seq<MailOp<T>>)
    ensures
        s.pending + accepted(events(s, ops)) == delivered(events(s, ops)) + run(s, ops).pending,
        s.pending.len() == 0 ==> {
            &&& delivered(events(s, ops)).len() <= accepted(events(s, ops)).len()
            &&& delivered(events(s, ops)) == accepted(events(s, ops)).take(delivered(events(s, ops)).len() as int)
        },
    decreases ops.len(),
{
    lemma_fifo_steps(s, ops);
    if s.pending.len() == 0 {
        let acc = accepted(events(s, ops));
        let del = delivered(events(s, ops));
        assert(s.pending + acc =~= acc);
        assert((del + run(s, ops).pending).take(del.len() as int) =~= del);
    }
}

proof fn lemma_fifo_steps<T>(s: MailboxState<T>, ops: Seq<MailOp<T>>)
    ensures
        s.pending + accepted(events(s, ops)) == delivered(events(s, ops)) + run(s, ops).pending,
    decreases ops.len(),
{
    if ops.len() > 0 {
        let pre = ops.drop_last();
        lemma_fifo_steps(s, pre);
        let r = run(s, pre);
        let evs = events(s, ops);
        assert(evs.drop_last() =~= events(s, pre));
        match ops.last() {
            MailOp::Send(m) => {
                if !r.closed && !r.is_full() {
                    assert(s.pending + accepted(evs) =~= (s.pending + accepted(events(s, pre))).push(m));
                    assert(delivered(evs) + run(s, ops).pending =~= (delivered(events(s, pre)) + r.pending).push(m));
                }
            },
            MailOp::Recv => {
                if r.pending.len() > 0 {
                    assert(delivered(evs) + run(s, ops).pending =~= delivered(events(s, pre)) + r.pending);
                }
            },
            MailOp::Close => {},
        }
    }
}

/// Closing: once the mailbox is closed it stays closed, every message offered
/// after that is refused and none enters, the actor still takes every message
/// that was waiting, in order, and when the actor finds the closed mailbox
/// empty, every message that was waiting has been taken.
pub proof fn lemma_close<T>(s: MailboxState<T>, ops: Seq<MailOp<T>>)
    requires
        s.closed,
    ensures
        run(s, ops).closed,
        refused(events(s, ops)) == offered(ops),
        accepted(events(s, ops)) == Seq::<T>::empty(),
        delivered(events(s, ops)) + run(s, ops).pending == s.pending,
        ops.len() > 0 && events(s, ops).last() == MailEvent::<T>::Closed ==> delivered(events(s, ops)) == s.pending,
    decreases ops.len(),
{
    lemma_fifo(s, ops);
    if ops.len() > 0 {
        let pre = ops.drop_last();
        lemma_close(s, pre);
        let evs = events(s, ops);
        assert(evs.drop_last() =~= events(s, pre));
        assert(s.pending + accepted(evs) =~= s.pending);
        if evs.last() == MailEvent::<T>::Closed {
            assert(run(s, ops).pending.len() == 0);
            assert(delivered(evs) + run(s, ops).pending =~= delivered(evs));
        }
    }
}

/// Why a message offered without waiting did not enter the queue. The message
/// is handed back.
#[derive(Debug, PartialEq, Eq)]
pub enum TrySendError<T> {
    /// Every slot is taken.
    Full(T),
    /// The mailbox is closed.
    Closed(T),
}

/// What the actor finds when it takes from the mailbox.
#[derive(Debug, PartialEq, Eq)]
pub enum Recv<T> {
    /// The oldest waiting message.
    Message(T),
    /// Nothing waits, and the mailbox is open.
    Empty,
    /// Nothing waits, and the mailbox is closed: nothing ever will.
    Closed,
}

/// The event that an offer of `m` came to, read from its result.
pub open spec fn send_event<T>(m: T, r: Result<(), TrySendError<T>>) -> MailEvent<T> {
    match r {
        Ok(()) => MailEvent::Accepted(m),
        Err(TrySendError::Full(x)) => MailEvent::Full(x),
        Err(TrySendError::Closed(x)) => MailEvent::Refused(x),
    }
}

/// The event that a take came to, read from its result.
pub open spec fn recv_event<T>(r: Recv<T>) -> MailEvent<T> {
    match r {
        Recv::Message(m) => MailEvent::Delivered(m),
        Recv::Empty => MailEvent::Empty,
        Recv::Closed => MailEvent::Closed,
    }
}

/// A bounded first-in, first-out queue of messages, which can be closed to
/// new messages while those already in it are still taken.
pub struct Mailbox<T> {
    queue: VecDeque<T>,
    capacity: usize,
    closed: bool,
}

impl<T> View for Mailbox<T> {
    type V = MailboxState<T>;

    closed spec fn view(&self) -> MailboxState<T> {
        MailboxState { capacity: self.capacity as nat, pending: self.queue@, closed: self.closed }
    }
}

impl<T> Mailbox<T> {
    pub open spec fn wf(&self) -> bool {
        self@.wf()
    }

    /// An open, empty mailbox with `capacity` slots; `None` where `capacity`
    /// is zero, since such a mailbox could never take a message.
    pub fn new(capacity: usize) -> (r: Option<Mailbox<T>>)
        ensures
            capacity == 0 <==> r.is_none(),
            r matches Some(m) ==> m.wf() && m@ == (MailboxState::<T> {
                capacity: capacity as nat,
                pending: Seq::empty(),
                closed: false,
            }),
    {
        if capacity == 0 {
            None
        } else {
            Some(Mailbox { queue: VecDeque::new(), capacity, closed: false })
        }
    }

    /// Offers `msg` without waiting: it enters the queue where the mailbox is
    /// open and has a free slot, and is handed back otherwise.
    pub fn try_send(&mut self, msg: T) -> (r: Result<(), TrySendError<T>>)
        requires
            old(self).wf(),
        ensures
            final(self).wf(),
            step(old(self)@, MailOp::Send(msg)) == (final(self)@, send_event(msg, r)),
            r == (if old(self)@.closed {
                Err(TrySendError::Closed(msg))
            } else if old(self)@.is_full() {
                Err(TrySendError::Full(msg))
            } else {
                Ok(())
            }),
    {
        if self.closed {
            Err(TrySendError::Closed(msg))
        } else if self.queue.len() >= self.capacity {
            Err(TrySendError::Full(msg))
        } else {
            self.queue.push_back(msg);
            Ok(())
        }
    }

    /// Takes the oldest waiting message. Messages that entered before the
    /// mailbox was closed are still handed out after it was.
    pub fn recv(&mut self) -> (r: Recv<T>)
        requires
            old(self).wf(),
        ensures
            final(self).wf(),
            step(old(self)@, MailOp::Recv) == (final(self)@, recv_event(r)),
            r == (if old(self)@.pending.len() > 0 {
                Recv::Message(old(self)@.pending[0])
            } else if old(self)@.closed {
                Recv::Closed
            } else {
                Recv::Empty
            }),
    {
        match self.queue.pop_front() {
            Some(m) => Recv::Message(m),
            None => {
                if self.closed {
                    Recv::Closed
                } else {
                    Recv::Empty
                }
            },
        }
    }

    /// Closes the mailbox to new messages; those waiting stay.
    pub fn close(&mut self)
        requires
            old(self).wf(),
        ensures
            final(self).wf(),
            step(old(self)@, MailOp::Close) == (final(self)@, MailEvent::<T>::Shut),
    {
        self.closed = true;
    }

    pub fn is_closed(&self) -> (r: bool)
        ensures
            r == self@.closed,
    {
        self.closed
    }

    /// How many messages wait.
    pub fn len(&self) -> (r: usize)
        ensures
            r == self@.pending.len(),
    {
        self.queue.len()
    }

    pub fn capacity(&self) -> (r: usize)
        ensures
            r == self@.capacity,
    {
        self.capacity
    }
}

} // verus!
