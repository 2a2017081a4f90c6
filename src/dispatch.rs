//! The decisions of the dispatch loop, as a state machine that the caller drives.
//!
//! The caller fetches requests, makes the backend calls and delivers replies; after each it
//! hands the outcome to `Dispatcher::step`, which says what to do next.
use vstd::prelude::*;

use crate::hsm::Error;
use crate::types::{Bytes, Signature};

verus! {

/// A request as the dispatch loop sees it, without the reply channel.
#[derive(Debug)]
pub enum Request {
    /// Sign the payload and reply with the signature.
    Sign(Bytes),
    /// Verify the signature of the payload and report the verdict.
    Verify(Bytes, Signature),
}

/// Where the loop stands.
#[derive(Clone, Copy, Debug, PartialEq, Eq, Structural)]
pub enum Phase {
    /// Waiting for the next request.
    Idle,
    /// A sign call is in flight.
    Signing,
    /// A signature is being handed to its requester.
    Replying,
    /// A verify call is in flight.
    Verifying,
    /// A verdict is being reported.
    Reporting,
    /// The input is exhausted; the loop has ended.
    Drained,
    /// A backend call failed; the loop has ended.
    Failed,
}

/// What happened since the last step.
#[derive(Debug)]
pub enum Event {
    /// The next request arrived.
    Received(Request),
    /// The input is exhausted.
    EndOfInput,
    /// The sign call completed.
    Signed(Result<Signature, Error>),
    /// The reply was handed over (`true`) or found its receiver gone (`false`).
    Replied(bool),
    /// The verify call completed.
    Verified(Result<bool, Error>),
    /// The verdict was reported.
    Reported,
}

/// What the caller does next.
#[derive(Debug)]
pub enum Action {
    /// Wait for the next request.
    Fetch,
    /// Call the backend to sign the payload.
    Sign(Bytes),
    /// Call the backend to verify the signature of the payload.
    Verify(Bytes, Signature),
    /// Send the signature on the request's reply channel.
    Reply(Signature),
    /// Report the verdict on the diagnostic channel.
    Report(bool),
    /// Stop, with this outcome.
    Finish(Result<(), Error>),
}

/// The state of the dispatch loop.
pub struct Dispatcher {
    /// Where the loop stands.
    pub phase: Phase,
    /// How many requests have been received.
    pub received: Ghost<nat>,
    /// How many backend calls have been made.
    pub calls: Ghost<nat>,
    /// How many backend calls have completed.
    pub completed: Ghost<nat>,
}

impl Dispatcher {
    /// A backend call is in flight.
    pub open spec fn is_busy(self) -> bool {
        self.phase is Signing || self.phase is Verifying
    }

    /// The loop has ended.
    pub open spec fn is_done(self) -> bool {
        self.phase is Drained || self.phase is Failed
    }

    /// How many backend calls are in flight.
    pub open spec fn in_flight(self) -> int {
        self.calls@ - self.completed@
    }

    /// Every received request got a backend call, and only a busy loop has one in flight.
    pub open spec fn wf(self) -> bool {
        &&& self.calls@ == self.received@
        &&& self.in_flight() == if self.is_busy() { 1int } else { 0int }
    }

    /// `e` is an event that can come in the current phase.
    pub open spec fn accepts(self, e: Event) -> bool {
        match self.phase {
            Phase::Idle => e is Received || e is EndOfInput,
            Phase::Signing => e is Signed,
            Phase::Replying => e is Replied,
            Phase::Verifying => e is Verified,
            Phase::Reporting => e is Reported,
            Phase::Drained => false,
            Phase::Failed => false,
        }
    }

    /// This state moved to `phase`, with the counters raised by the given amounts.
    pub open spec fn moved(self, phase: Phase, received: nat, calls: nat, completed: nat) -> Self {
        Dispatcher {
            phase,
            received: Ghost((self.received@ + received) as nat),
            calls: Ghost((self.calls@ + calls) as nat),
            completed: Ghost((self.completed@ + completed) as nat),
        }
    }

    /// The state and the action that follow event `e`.
    pub open spec fn next(self, e: Event) -> (Self, Action) {
        match e {
            Event::Received(req) => match req {
                Request::Sign(p) => (self.moved(Phase::Signing, 1, 1, 0), Action::Sign(p)),
                Request::Verify(p, s) => (
                    self.moved(Phase::Verifying, 1, 1, 0),
                    Action::Verify(p, s),
                ),
            },
            Event::EndOfInput => (self.moved(Phase::Drained, 0, 0, 0), Action::Finish(Ok(()))),
            Event::Signed(r) => match r {
                Ok(sig) => (self.moved(Phase::Replying, 0, 0, 1), Action::Reply(sig)),
                Err(x) => (self.moved(Phase::Failed, 0, 0, 1), Action::Finish(Err(x))),
            },
            Event::Replied(_) => (self.moved(Phase::Idle, 0, 0, 0), Action::Fetch),
            Event::Verified(r) => match r {
                Ok(v) => (self.moved(Phase::Reporting, 0, 0, 1), Action::Report(v)),
                Err(x) => (self.moved(Phase::Failed, 0, 0, 1), Action::Finish(Err(x))),
            },
            Event::Reported => (self.moved(Phase::Idle, 0, 0, 0), Action::Fetch),
        }
    }

    /// The state and the actions after the events in turn, or `None` where one of them cannot
    /// come when it does.
    pub open spec fn run(self, events: Seq<Event>) -> Option<(Self, Seq<Action>)>
        decreases events.len(),
    {
        if events.len() == 0 {
            Some((self, Seq::empty()))
        } else if !self.accepts(events[0]) {
            None
        } else {
            let (d, a) = self.next(events[0]);
            match d.run(events.drop_first()) {
                Some((last, acts)) => Some((last, seq![a] + acts)),
                None => None,
            }
        }
    }

    /// A loop that waits for its first request.
    pub fn new() -> (r: Self)
        ensures
            r.phase == Phase::Idle,
            r.received@ == 0,
            r.calls@ == 0,
            r.completed@ == 0,
            r.wf(),
    {
        Dispatcher { phase: Phase::Idle, received: Ghost(0), calls: Ghost(0), completed: Ghost(0) }
    }

    /// Whether `e` can come in the current phase.
    pub fn can_accept(&self, e: &Event) -> (r: bool)
        ensures
            r == self.accepts(*e),
    {
        match self.phase {
            Phase::Idle => match e {
                Event::Received(_) => true,
                Event::EndOfInput => true,
                _ => false,
            },
            Phase::Signing => matches!(e, Event::Signed(_)),
            Phase::Replying => matches!(e, Event::Replied(_)),
            Phase::Verifying => matches!(e, Event::Verified(_)),
            Phase::Reporting => matches!(e, Event::Reported),
            Phase::Drained => false,
            Phase::Failed => false,
        }
    }

    /// Takes in event `e` and says what to do next.
    pub fn step(&mut self, e: Event) -> (a: Action)
        requires
            old(self).wf(),
            old(self).accepts(e),
        ensures
            (*final(self), a) == old(self).next(e),
            final(self).wf(),
    {
        match e {
            Event::Received(req) => {
                self.received = Ghost(self.received@ + 1);
                self.calls = Ghost(self.calls@ + 1);
                match req {
                    Request::Sign(p) => {
                        self.phase = Phase::Signing;
                        Action::Sign(p)
                    },
                    Request::Verify(p, s) => {
                        self.phase = Phase::Verifying;
                        Action::Verify(p, s)
                    },
                }
            },
            Event::EndOfInput => {
                self.phase = Phase::Drained;
                Action::Finish(Ok(()))
            },
            Event::Signed(r) => {
                self.completed = Ghost(self.completed@ + 1);
                match r {
                    Ok(sig) => {
                        self.phase = Phase::Replying;
                        Action::Reply(sig)
                    },
                    Err(x) => {
                        self.phase = Phase::Failed;
                        Action::Finish(Err(x))
                    },
                }
            },
            Event::Replied(_) => {
                self.phase = Phase::Idle;
                Action::Fetch
            },
            Event::Verified(r) => {
                self.completed = Ghost(self.completed@ + 1);
                match r {
                    Ok(v) => {
                        self.phase = Phase::Reporting;
                        Action::Report(v)
                    },
                    Err(x) => {
                        self.phase = Phase::Failed;
                        Action::Finish(Err(x))
                    },
                }
            },
            Event::Reported => {
                self.phase = Phase::Idle;
                Action::Fetch
            },
        }
    }
}

/// `a` is a backend call.
pub open spec fn is_call(a: Action) -> bool {
    a is Sign || a is Verify
}

/// How many backend calls `acts` holds.
pub open spec fn count_calls(acts: Seq<Action>) -> nat
    decreases acts.len(),
{
    if acts.len() == 0 {
        0
    } else {
        (if is_call(acts[0]) { 1nat } else { 0nat }) + count_calls(acts.drop_first())
    }
}

/// How many requests `events` holds.
pub open spec fn count_requests(events: Seq<Event>) -> nat
    decreases events.len(),
{
    if events.len() == 0 {
        0
    } else {
        (if events[0] is Received { 1nat } else { 0nat }) + count_requests(events.drop_first())
    }
}

/// A backend call is made only when none is in flight, and no step leaves more than one in
/// flight; each request gets exactly one call, at once.
pub proof fn lemma_one_call_at_a_time(d: Dispatcher, e: Event)
    requires
        d.wf(),
        d.accepts(e),
    ensures
        d.next(e).0.wf(),
        0 <= d.next(e).0.in_flight() <= 1,
        is_call(d.next(e).1) ==> d.in_flight() == 0 && d.next(e).0.in_flight() == 1,
        is_call(d.next(e).1) <==> e is Received,
        d.next(e).0.calls@ == d.calls@ + if is_call(d.next(e).1) { 1int } else { 0int },
{
}

/// Over any run of events, the calls are made one after the other, and there are exactly as
/// many as there were requests.
pub proof fn lemma_serialized(d: Dispatcher, events: Seq<Event>)
    requires
        d.wf(),
        d.run(events) is Some,
    ensures
        ({
            let (last, acts) = d.run(events).unwrap();
            &&& last.wf()
            &&& 0 <= last.in_flight() <= 1
            &&& count_calls(acts) == count_requests(events)
            &&& last.calls@ == d.calls@ + count_calls(acts)
        }),
    decreases events.len(),
{
    if events.len() > 0 {
        lemma_one_call_at_a_time(d, events[0]);
        let (d1, a) = d.next(events[0]);
        lemma_serialized(d1, events.drop_first());
        let (last, acts) = d1.run(events.drop_first()).unwrap();
        assert((seq![a] + acts)[0] == a);
        assert((seq![a] + acts).drop_first() =~= acts);
    }
}

/// A signature whose requester has gone is not an error: the loop goes back to waiting for
/// the next request.
pub proof fn lemma_dropped_reply(d: Dispatcher)
    requires
        d.wf(),
        d.phase == Phase::Replying,
    ensures
        d.accepts(Event::Replied(false)),
        d.next(Event::Replied(false)).1 is Fetch,
        d.next(Event::Replied(false)).0.phase == Phase::Idle,
        d.next(Event::Replied(false)).0.wf(),
{
}

/// A failed backend call ends the loop with that error, and no later event is taken in, so
/// no later request is dispatched.
pub proof fn lemma_fail_fast(d: Dispatcher, e: Event, x: Error, later: Seq<Event>)
    requires
        d.wf(),
        d.accepts(e),
        e == Event::Signed(Err(x)) || e == Event::Verified(Err(x)),
        later.len() > 0,
    ensures
        d.next(e).1 == Action::Finish(Err(x)),
        d.next(e).0.phase == Phase::Failed,
        d.next(e).0.calls@ == d.calls@,
        forall|e2: Event| !d.next(e).0.accepts(e2),
        d.next(e).0.run(later) is None,
{
}

} // verus!
