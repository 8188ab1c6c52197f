//! A staged builder for an actor. A transducer and a queue size must be
//! given, in either order, and whether to report timings may be, before the
//! builder offers `build`; each stage is a type, so a missing part is a type
//! error rather than a failure at run time.
use vstd::prelude::*;
use crate::error::ConfigError;
use crate::mailbox::{Mailbox, MailboxState};

verus! {

/// The builder of an actor, at the stage that its three type parameters name.
pub struct Builder<A, B, C> {
    transducer: A,
    queue_size: B,
    timings: C,
}

/// No transducer given yet.
pub struct TransducerEmpty;

/// The transducer that the actor will own.
pub struct TransducerAdded<E>(E);

/// No queue size given yet.
pub struct QueueSizeEmpty;

/// The number of slots of the actor's queue.
pub struct QueueSizeAdded(usize);

/// Not said whether to report timings.
pub struct TimingsEmpty;

/// Whether to report timings.
pub struct TimingsAdded(bool);

pub type EmptyBuilder = Builder<TransducerEmpty, QueueSizeEmpty, TimingsEmpty>;

impl<E> TransducerAdded<E> {
    pub closed spec fn value(&self) -> E {
        self.0
    }
}

impl QueueSizeAdded {
    pub closed spec fn value(&self) -> usize {
        self.0
    }
}

impl TimingsAdded {
    pub closed spec fn value(&self) -> bool {
        self.0
    }
}

/// What an actor starts from: the transducer it owns, the empty, open
/// mailbox that callers and the actor share, and whether to report timings.
pub struct ActorSetup<E, T> {
    pub transducer: E,
    pub mailbox: Mailbox<T>,
    pub timings: bool,
}

/// An open, empty mailbox with `capacity` slots.
pub open spec fn fresh_mailbox<T>(capacity: usize) -> MailboxState<T> {
    MailboxState { capacity: capacity as nat, pending: Seq::empty(), closed: false }
}

/// Builds the setup of an actor from its parts; the queue must have a slot.
fn setup<E, T>(transducer: E, queue_size: usize, timings: bool) -> (r: Result<ActorSetup<E, T>, ConfigError>)
    ensures
        queue_size == 0 <==> r == Err::<ActorSetup<E, T>, ConfigError>(ConfigError::ZeroQueueSize),
        r matches Ok(s) ==> {
            &&& s.transducer == transducer
            &&& s.mailbox.wf()
            &&& s.mailbox@ == fresh_mailbox::<T>(queue_size)
            &&& s.timings == timings
        },
{
    match Mailbox::new(queue_size) {
        Some(mailbox) => Ok(ActorSetup { transducer, mailbox, timings }),
        None => Err(ConfigError::ZeroQueueSize),
    }
}

impl<A, B, C> Builder<A, B, C> {
    pub closed spec fn transducer_stage(&self) -> A {
        self.transducer
    }

    pub closed spec fn queue_size_stage(&self) -> B {
        self.queue_size
    }

    pub closed spec fn timings_stage(&self) -> C {
        self.timings
    }
}

impl Default for Builder<TransducerEmpty, QueueSizeEmpty, TimingsEmpty> {
    /// A builder with nothing given yet.
    fn default() -> (r: Self)
        ensures
            r.transducer_stage() == TransducerEmpty,
            r.queue_size_stage() == QueueSizeEmpty,
            r.timings_stage() == TimingsEmpty,
    {
        Builder { transducer: TransducerEmpty, queue_size: QueueSizeEmpty, timings: TimingsEmpty }
    }
}

impl Builder<TransducerEmpty, QueueSizeEmpty, TimingsEmpty> {
    pub fn transducer<E>(self, tr: E) -> (r: Builder<TransducerAdded<E>, QueueSizeEmpty, TimingsEmpty>)
        ensures
            r.transducer_stage().value() == tr,
    {
        Builder { transducer: TransducerAdded(tr), queue_size: QueueSizeEmpty, timings: TimingsEmpty }
    }

    pub fn queue_size(self, size: usize) -> (r: Builder<TransducerEmpty, QueueSizeAdded, TimingsEmpty>)
        ensures
            r.queue_size_stage().value() == size,
    {
        Builder { transducer: TransducerEmpty, queue_size: QueueSizeAdded(size), timings: TimingsEmpty }
    }

    pub fn timings(self, enabled: bool) -> (r: Builder<TransducerEmpty, QueueSizeEmpty, TimingsAdded>)
        ensures
            r.timings_stage().value() == enabled,
    {
        Builder { transducer: TransducerEmpty, queue_size: QueueSizeEmpty, timings: TimingsAdded(enabled) }
    }
}

impl<E> Builder<TransducerAdded<E>, QueueSizeEmpty, TimingsEmpty> {
    pub fn queue_size(self, size: usize) -> (r: Builder<TransducerAdded<E>, QueueSizeAdded, TimingsEmpty>)
        ensures
            r.transducer_stage() == self.transducer_stage(),
            r.queue_size_stage().value() == size,
    {
        Builder { transducer: self.transducer, queue_size: QueueSizeAdded(size), timings: TimingsEmpty }
    }

    pub fn timings(self, enabled: bool) -> (r: Builder<TransducerAdded<E>, QueueSizeEmpty, TimingsAdded>)
        ensures
            r.transducer_stage() == self.transducer_stage(),
            r.timings_stage().value() == enabled,
    {
        Builder { transducer: self.transducer, queue_size: QueueSizeEmpty, timings: TimingsAdded(enabled) }
    }
}

impl Builder<TransducerEmpty, QueueSizeAdded, TimingsEmpty> {
    pub fn transducer<E>(self, tr: E) -> (r: Builder<TransducerAdded<E>, QueueSizeAdded, TimingsEmpty>)
        ensures
            r.transducer_stage().value() == tr,
            r.queue_size_stage() == self.queue_size_stage(),
    {
        Builder { transducer: TransducerAdded(tr), queue_size: self.queue_size, timings: TimingsEmpty }
    }

    pub fn timings(self, enabled: bool) -> (r: Builder<TransducerEmpty, QueueSizeAdded, TimingsAdded>)
        ensures
            r.queue_size_stage() == self.queue_size_stage(),
            r.timings_stage().value() == enabled,
    {
        Builder { transducer: TransducerEmpty, queue_size: self.queue_size, timings: TimingsAdded(enabled) }
    }
}

impl Builder<TransducerEmpty, QueueSizeEmpty, TimingsAdded> {
    pub fn transducer<E>(self, tr: E) -> (r: Builder<TransducerAdded<E>, QueueSizeEmpty, TimingsAdded>)
        ensures
            r.transducer_stage().value() == tr,
            r.timings_stage() == self.timings_stage(),
    {
        Builder { transducer: TransducerAdded(tr), queue_size: QueueSizeEmpty, timings: self.timings }
    }

    pub fn queue_size(self, size: usize) -> (r: Builder<TransducerEmpty, QueueSizeAdded, TimingsAdded>)
        ensures
            r.queue_size_stage().value() == size,
            r.timings_stage() == self.timings_stage(),
    {
        Builder { transducer: TransducerEmpty, queue_size: QueueSizeAdded(size), timings: self.timings }
    }
}

impl<E> Builder<TransducerAdded<E>, QueueSizeEmpty, TimingsAdded> {
    pub fn queue_size(self, size: usize) -> (r: Builder<TransducerAdded<E>, QueueSizeAdded, TimingsAdded>)
        ensures
            r.transducer_stage() == self.transducer_stage(),
            r.queue_size_stage().value() == size,
            r.timings_stage() == self.timings_stage(),
    {
        Builder { transducer: self.transducer, queue_size: QueueSizeAdded(size), timings: self.timings }
    }
}

impl Builder<TransducerEmpty, QueueSizeAdded, TimingsAdded> {
    pub fn transducer<E>(self, tr: E) -> (r: Builder<TransducerAdded<E>, QueueSizeAdded, TimingsAdded>)
        ensures
            r.transducer_stage().value() == tr,
            r.queue_size_stage() == self.queue_size_stage(),
            r.timings_stage() == self.timings_stage(),
    {
        Builder { transducer: TransducerAdded(tr), queue_size: self.queue_size, timings: self.timings }
    }
}

impl<E> Builder<TransducerAdded<E>, QueueSizeAdded, TimingsEmpty> {
    pub fn timings(self, enabled: bool) -> (r: Builder<TransducerAdded<E>, QueueSizeAdded, TimingsAdded>)
        ensures
            r.transducer_stage() == self.transducer_stage(),
            r.queue_size_stage() == self.queue_size_stage(),
            r.timings_stage().value() == enabled,
    {
        Builder { transducer: self.transducer, queue_size: self.queue_size, timings: TimingsAdded(enabled) }
    }

    /// The setup of an actor that owns the transducer, with a queue of the
    /// given size and no timings; a queue size of zero is refused.
    pub fn build<T>(self) -> (r: Result<ActorSetup<E, T>, ConfigError>)
        ensures
            self.queue_size_stage().value() == 0
                <==> r == Err::<ActorSetup<E, T>, ConfigError>(ConfigError::ZeroQueueSize),
            r matches Ok(s) ==> {
                &&& s.transducer == self.transducer_stage().value()
                &&& s.mailbox.wf()
                &&& s.mailbox@ == fresh_mailbox::<T>(self.queue_size_stage().value())
                &&& !s.timings
            },
    {
        setup(self.transducer.0, self.queue_size.0, false)
    }
}

impl<E> Builder<TransducerAdded<E>, QueueSizeAdded, TimingsAdded> {
    /// The setup of an actor that owns the transducer, with a queue of the
    /// given size, reporting timings as asked; a queue size of zero is
    /// refused.
    pub fn build<T>(self) -> (r: Result<ActorSetup<E, T>, ConfigError>)
        ensures
            self.queue_size_stage().value() == 0
                <==> r == Err::<ActorSetup<E, T>, ConfigError>(ConfigError::ZeroQueueSize),
            r matches Ok(s) ==> {
                &&& s.transducer == self.transducer_stage().value()
                &&& s.mailbox.wf()
                &&& s.mailbox@ == fresh_mailbox::<T>(self.queue_size_stage().value())
                &&& s.timings == self.timings_stage().value()
            },
    {
        setup(self.transducer.0, self.queue_size.0, self.timings.0)
    }
}

} // verus!
