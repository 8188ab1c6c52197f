use vstd::prelude::*;

verus! {

/// Whether a request waited at some stage, and if so for how many
/// nanoseconds.
#[derive(Debug, Clone, Copy, PartialEq, Eq, Structural)]
pub enum Waited {
    Yes(u64),
    No,
}

impl Waited {
    /// The time waited, in nanoseconds; zero where there was no wait.
    pub open spec fn nanos_spec(&self) -> nat {
        match self {
            Waited::Yes(d) => *d as nat,
            Waited::No => 0,
        }
    }

    /// The time waited, in nanoseconds; zero where there was no wait.
    pub fn nanos(&self) -> (r: u64)
        ensures
            r == self.nanos_spec(),
    {
        match self {
            Waited::Yes(d) => *d,
            Waited::No => 0,
        }
    }
}

/// What a caller gets back from a successful lookup: the engine's results
/// and where the time went. All durations are in nanoseconds.
pub struct LookupResults<R> {
    /// The results, in the order in which the engine gave them.
    pub results: Vec<R>,
    /// Whether the caller waited for a free slot before the request entered
    /// the queue, and for how long.
    pub before_queue: Waited,
    /// How long the request waited inside the queue before the lookup began.
    pub in_queue: Waited,
    /// How long the lookup itself took.
    pub lookup_duration: u64,
    /// The time from the request entering the queue to its reply coming back.
    pub result_duration: u64,
    /// The time from the first attempt to submit to the reply coming back.
    pub total_duration: u64,
}

impl<R> LookupResults<R> {
    /// The figures agree with each other: the wait inside the queue is the
    /// round trip less the lookup, and the total adds the wait before the
    /// queue to the round trip.
    pub open spec fn wf(&self) -> bool {
        &&& self.lookup_duration <= self.result_duration
        &&& self.in_queue == Waited::Yes((self.result_duration - self.lookup_duration) as u64)
        &&& self.total_duration == self.before_queue.nanos_spec() + self.result_duration
    }

    /// Puts together what a caller gets back. The request entered the queue
    /// at `entered_at` and its reply came back at `received_at`, both read
    /// from one monotonic clock in nanoseconds; the actor reported that the
    /// lookup took `lookup_duration`. The wait inside the queue is not
    /// observed: it is the round trip less the lookup.
    pub fn assemble(
        results: Vec<R>,
        before_queue: Waited,
        entered_at: u64,
        received_at: u64,
        lookup_duration: u64,
    ) -> (r: LookupResults<R>)
        requires
            before_queue.nanos_spec() <= entered_at,
            entered_at <= received_at,
            lookup_duration <= received_at - entered_at,
        ensures
            r.wf(),
            r.results == results,
            r.before_queue == before_queue,
            r.lookup_duration == lookup_duration,
            r.result_duration == received_at - entered_at,
            r.in_queue == Waited::Yes((received_at - entered_at - lookup_duration) as u64),
            r.total_duration == before_queue.nanos_spec() + (received_at - entered_at),
    {
        let result_duration = received_at - entered_at;
        let in_queue = Waited::Yes(result_duration - lookup_duration);
        let total_duration = before_queue.nanos() + result_duration;
        LookupResults {
            results,
            before_queue,
            in_queue,
            lookup_duration,
            result_duration,
            total_duration,
        }
    }
}

/// The time from the first attempt to submit to the reply is the wait before
/// the queue, plus the wait inside it, plus the lookup.
pub proof fn lemma_timing_identity<R>(r: LookupResults<R>)
    requires
        r.wf(),
    ensures
        r.total_duration == r.before_queue.nanos_spec() + r.in_queue.nanos_spec() + r.lookup_duration,
{
}

} // verus!
