use std::sync::mpsc;

use hfst::actor::{finish_lookup, next_action, ActorAction, LookupReply, Request};
use hfst::builder::{Builder, EmptyBuilder};
use hfst::client::{SubmitStep, Submission};
use hfst::error::{ConfigError, LookupError};
use hfst::mailbox::Mailbox;
use hfst::timing::{LookupResults, Waited};

struct Stub {
    id: u32,
}

impl Stub {
    fn lookup(&self, input: &str) -> Vec<(String, f32)> {
        vec![(format!("{}#1", input), 1.0)]
    }
}

type Reply = LookupReply<(String, f32)>;
type Msg = Request<mpsc::Sender<Reply>>;

/// Serves one message as the actor does, at clock time `now`; the lookup
/// takes `cost` nanoseconds. Returns what the actor did.
fn serve(stub: &Stub, mailbox: &mut Mailbox<Msg>, now: u64, cost: u64) -> &'static str {
    match next_action(mailbox) {
        ActorAction::Lookup(req) => {
            let results = stub.lookup(&req.input);
            let reply = finish_lookup(results, now, now + cost);
            // A caller that gave up no longer listens: the reply is dropped.
            let _ = req.reply_to.send(reply);
            "lookup"
        }
        ActorAction::Wait => "wait",
        ActorAction::Stop => "stop",
    }
}

#[test]
fn builder_any_order() {
    let a = Builder::default().transducer(Stub { id: 1 }).queue_size(3).timings(true);
    let b = EmptyBuilder::default().queue_size(3).transducer(Stub { id: 1 }).timings(true);
    let c = Builder::default().timings(true).transducer(Stub { id: 1 }).queue_size(3);
    let c2 = Builder::default().timings(true).queue_size(3).transducer(Stub { id: 1 });
    for setup in [a.build::<u8>(), b.build::<u8>(), c.build::<u8>(), c2.build::<u8>()] {
        let setup = setup.unwrap();
        assert_eq!(setup.transducer.id, 1);
        assert_eq!(setup.mailbox.capacity(), 3);
        assert_eq!(setup.mailbox.len(), 0);
        assert!(!setup.mailbox.is_closed());
        assert!(setup.timings);
    }
}

#[test]
fn builder_timings_default_off() {
    let setup = Builder::default().transducer(Stub { id: 2 }).queue_size(1).build::<u8>().unwrap();
    assert!(!setup.timings);
    let setup = Builder::default()
        .transducer(Stub { id: 2 })
        .timings(true)
        .queue_size(1)
        .build::<u8>();
    assert!(setup.unwrap().timings);
}

#[test]
fn builder_refuses_zero_queue() {
    let r = Builder::default().queue_size(0).transducer(Stub { id: 3 }).build::<u8>();
    assert!(matches!(r, Err(ConfigError::ZeroQueueSize)));
}

#[test]
fn finish_lookup_measures() {
    let r = finish_lookup(vec![1u8, 2], 40, 47);
    assert_eq!(r.results, vec![1, 2]);
    assert_eq!(r.lookup_duration, 7);
}

#[test]
fn five_queries_through_two_slots() {
    let setup = Builder::default().transducer(Stub { id: 9 }).queue_size(2).build::<Msg>().unwrap();
    let stub = setup.transducer;
    let mut mailbox = setup.mailbox;
    let inputs = ["a", "b", "c", "d", "e"];
    let mut clock: u64 = 0;

    let mut receivers = Vec::new();
    let mut subs = Vec::new();
    for input in inputs {
        let (tx, rx) = mpsc::channel();
        receivers.push(rx);
        subs.push(Submission::new(Request { input: input.to_string(), reply_to: tx }, clock));
    }

    let mut entered: Vec<Option<(Waited, u64)>> = vec![None; 5];
    // Every caller tries at once: two get a slot, three must wait.
    for (i, sub) in subs.iter_mut().enumerate() {
        match sub.attempt(&mut mailbox, clock) {
            SubmitStep::Entered { before_queue, entered_at } => entered[i] = Some((before_queue, entered_at)),
            SubmitStep::Wait => {}
            SubmitStep::Closed => panic!("mailbox is open"),
        }
    }
    assert_eq!(mailbox.len(), 2);
    assert!(entered[0].is_some() && entered[1].is_some());
    assert!(entered[2..].iter().all(|e| e.is_none()));

    // The actor serves one request at a time; each freed slot lets a waiting
    // caller in.
    let mut served = 0;
    while served < 5 {
        clock += 10;
        assert_eq!(serve(&stub, &mut mailbox, clock, 3), "lookup");
        served += 1;
        clock += 3;
        for (i, sub) in subs.iter_mut().enumerate() {
            if entered[i].is_none() {
                if let SubmitStep::Entered { before_queue, entered_at } = sub.attempt(&mut mailbox, clock) {
                    entered[i] = Some((before_queue, entered_at));
                }
            }
            assert!(mailbox.len() <= 2);
        }
    }
    clock += 1;
    assert_eq!(serve(&stub, &mut mailbox, clock, 3), "wait");

    let mut replies = 0;
    for (i, rx) in receivers.iter().enumerate() {
        let reply = rx.try_recv().expect("every request got its reply");
        replies += 1;
        let (before_queue, entered_at) = entered[i].unwrap();
        let r = LookupResults::assemble(reply.results, before_queue, entered_at, clock, reply.lookup_duration);
        assert_eq!(r.results, vec![(format!("{}#1", inputs[i]), 1.0f32)]);
        assert_eq!(r.lookup_duration, 3);
        if i < 2 {
            assert_eq!(r.before_queue, Waited::No);
        } else {
            assert!(matches!(r.before_queue, Waited::Yes(d) if d > 0));
        }
    }
    assert_eq!(replies, 5);
}

#[test]
fn stop_with_nothing_pending() {
    let setup = Builder::default().transducer(Stub { id: 42 }).queue_size(4).build::<Msg>().unwrap();
    let stub = setup.transducer;
    let mut mailbox = setup.mailbox;
    mailbox.close();
    assert_eq!(serve(&stub, &mut mailbox, 5, 1), "stop");
    // The actor hands back the very transducer it was given.
    assert_eq!(stub.id, 42);

    let (tx, _rx) = mpsc::channel();
    let mut sub = Submission::new(Request { input: "late".to_string(), reply_to: tx }, 6);
    let outcome = match sub.attempt(&mut mailbox, 6) {
        SubmitStep::Closed => Err(LookupError::ChannelClosed),
        other => Ok(other),
    };
    assert_eq!(outcome, Err(LookupError::ChannelClosed));
}

#[test]
fn stop_drains_queued_requests() {
    let setup = Builder::default().transducer(Stub { id: 1 }).queue_size(3).build::<Msg>().unwrap();
    let stub = setup.transducer;
    let mut mailbox = setup.mailbox;
    let mut rxs = Vec::new();
    for input in ["x", "y"] {
        let (tx, rx) = mpsc::channel();
        rxs.push(rx);
        let mut sub = Submission::new(Request { input: input.to_string(), reply_to: tx }, 0);
        assert_eq!(sub.attempt(&mut mailbox, 0), SubmitStep::Entered { before_queue: Waited::No, entered_at: 0 });
    }
    mailbox.close();
    let (tx, _rx) = mpsc::channel();
    let mut late = Submission::new(Request { input: "z".to_string(), reply_to: tx }, 1);
    assert_eq!(late.attempt(&mut mailbox, 1), SubmitStep::Closed);
    assert_eq!(serve(&stub, &mut mailbox, 2, 1), "lookup");
    assert_eq!(serve(&stub, &mut mailbox, 4, 1), "lookup");
    assert_eq!(serve(&stub, &mut mailbox, 6, 1), "stop");
    assert_eq!(rxs[0].try_recv().unwrap().results[0].0, "x#1");
    assert_eq!(rxs[1].try_recv().unwrap().results[0].0, "y#1");
}

#[test]
fn abandoned_reply_is_dropped() {
    let setup = Builder::default().transducer(Stub { id: 1 }).queue_size(2).build::<Msg>().unwrap();
    let stub = setup.transducer;
    let mut mailbox = setup.mailbox;
    let (tx, rx) = mpsc::channel();
    let mut sub = Submission::new(Request { input: "gone".to_string(), reply_to: tx }, 0);
    assert!(matches!(sub.attempt(&mut mailbox, 0), SubmitStep::Entered { .. }));
    // The caller gives up before the actor takes the request.
    drop(rx);
    assert_eq!(serve(&stub, &mut mailbox, 1, 1), "lookup");
    // The actor carries on.
    let (tx, rx) = mpsc::channel();
    let mut sub = Submission::new(Request { input: "next".to_string(), reply_to: tx }, 2);
    assert!(matches!(sub.attempt(&mut mailbox, 2), SubmitStep::Entered { .. }));
    assert_eq!(serve(&stub, &mut mailbox, 3, 1), "lookup");
    assert_eq!(rx.try_recv().unwrap().results, vec![("next#1".to_string(), 1.0f32)]);
}

#[test]
fn waiting_submission_reports_wait() {
    let mut mailbox = Mailbox::new(1).unwrap();
    let mut first = Submission::new(1u8, 0);
    let mut second = Submission::new(2u8, 10);
    assert_eq!(first.attempt(&mut mailbox, 0), SubmitStep::Entered { before_queue: Waited::No, entered_at: 0 });
    assert_eq!(second.attempt(&mut mailbox, 10), SubmitStep::Wait);
    assert_eq!(second.attempt(&mut mailbox, 15), SubmitStep::Wait);
    let _ = mailbox.recv();
    assert_eq!(
        second.attempt(&mut mailbox, 25),
        SubmitStep::Entered { before_queue: Waited::Yes(15), entered_at: 25 }
    );
}
