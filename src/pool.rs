//! Admission control of a bounded-concurrency worker pool.
//!
//! A pool pulls items from an input queue and runs one task per item, with at
//! most `limit` tasks in flight. Its event loop only polls the input queue while
//! it has a free slot; it reclaims a slot whenever a task completes. Once the
//! input queue is observed closed it admits nothing more, drains the tasks in
//! flight, and then finishes (closing its own output queue, if it has one)
//! exactly once. The driver performs the I/O and reports each event here.
use vstd::prelude::*;

verus! {

/// What the driver observed.
#[derive(Clone, Copy, Debug, PartialEq, Eq, Structural)]
pub enum PoolEvent {
    /// The input queue yielded an item.
    Received,
    /// The input queue is closed and yields no further items.
    InputClosed,
    /// A task in flight completed, successfully or not.
    TaskFinished { succeeded: bool },
}

/// What the driver must do next.
#[derive(Clone, Copy, Debug, PartialEq, Eq, Structural)]
pub enum PoolAction {
    /// Start a task for the item just received.
    Spawn,
    /// Keep waiting for events.
    Continue,
    /// Every task has drained: close the output queue, if any, and stop.
    Finish,
}

/// State of one pool. `admitted` counts the tasks ever started, `succeeded` and
/// `failed` those that completed each way.
#[derive(Clone, Copy, Debug, PartialEq, Eq, Structural)]
pub struct Pool {
    pub limit: usize,
    pub in_flight: usize,
    pub input_closed: bool,
    pub finished: bool,
    pub admitted: u64,
    pub succeeded: u64,
    pub failed: u64,
}

impl Pool {
    /// The invariant: the cap holds, every admitted task is either in flight or
    /// has completed, and the pool is finished exactly when its input is closed
    /// and nothing is in flight.
    pub open spec fn wf(self) -> bool {
        &&& 1 <= self.limit
        &&& self.in_flight <= self.limit
        &&& self.admitted == self.succeeded + self.failed + self.in_flight
        &&& self.finished <==> (self.input_closed && self.in_flight == 0)
    }

    /// The pool polls its input queue only while it has a free slot and its
    /// input is still open (and its task counter cannot overflow).
    pub open spec fn spec_accepts_input(&self) -> bool {
        !self.input_closed && self.in_flight < self.limit && self.admitted < u64::MAX
    }

    /// Events the driver can observe in this state.
    pub open spec fn allows(self, e: PoolEvent) -> bool {
        match e {
            PoolEvent::Received => self.spec_accepts_input(),
            PoolEvent::InputClosed => self.spec_accepts_input(),
            PoolEvent::TaskFinished { succeeded } => {
                &&& self.in_flight > 0
                &&& succeeded ==> self.succeeded < u64::MAX
                &&& !succeeded ==> self.failed < u64::MAX
            },
        }
    }

    /// The state after `e`, and the action the driver must take.
    pub open spec fn next(self, e: PoolEvent) -> (Pool, PoolAction) {
        match e {
            PoolEvent::Received => (
                Pool {
                    in_flight: (self.in_flight + 1) as usize,
                    admitted: (self.admitted + 1) as u64,
                    ..self
                },
                PoolAction::Spawn,
            ),
            PoolEvent::InputClosed => {
                let done = self.in_flight == 0;
                (
                    Pool { input_closed: true, finished: done, ..self },
                    if done { PoolAction::Finish } else { PoolAction::Continue },
                )
            },
            PoolEvent::TaskFinished { succeeded } => {
                let left = (self.in_flight - 1) as usize;
                let done = self.input_closed && left == 0;
                (
                    Pool {
                        in_flight: left,
                        finished: done,
                        succeeded: if succeeded { (self.succeeded + 1) as u64 } else { self.succeeded },
                        failed: if succeeded { self.failed } else { (self.failed + 1) as u64 },
                        ..self
                    },
                    if done { PoolAction::Finish } else { PoolAction::Continue },
                )
            },
        }
    }

    /// A fresh pool with cap `limit`; none when the cap is zero, since such a
    /// pool could never run anything.
    pub fn new(limit: usize) -> (r: Option<Pool>)
        ensures
            limit == 0 <==> r.is_none(),
            r matches Some(p) ==> p.wf() && p.limit == limit && p.in_flight == 0 && !p.input_closed
                && !p.finished && p.admitted == 0 && p.succeeded == 0 && p.failed == 0,
    {
        if limit == 0 {
            None
        } else {
            Some(Pool {
                limit,
                in_flight: 0,
                input_closed: false,
                finished: false,
                admitted: 0,
                succeeded: 0,
                failed: 0,
            })
        }
    }

    /// Whether the driver should poll the input queue now.
    #[verifier::when_used_as_spec(spec_accepts_input)]
    pub fn accepts_input(&self) -> (r: bool)
        ensures
            r == self.spec_accepts_input(),
    {
        !self.input_closed && self.in_flight < self.limit && self.admitted < u64::MAX
    }

    /// Whether the driver should wait for a task in flight to complete.
    pub fn has_tasks(&self) -> (r: bool)
        ensures
            r == (self.in_flight > 0),
    {
        self.in_flight > 0
    }

    /// Applies an observed event and returns what to do next.
    pub fn step(&mut self, e: PoolEvent) -> (a: PoolAction)
        requires
            old(self).wf(),
            old(self).allows(e),
        ensures
            (*final(self), a) == old(self).next(e),
            final(self).wf(),
    {
        match e {
            PoolEvent::Received => {
                self.in_flight = self.in_flight + 1;
                self.admitted = self.admitted + 1;
                PoolAction::Spawn
            },
            PoolEvent::InputClosed => {
                self.input_closed = true;
                if self.in_flight == 0 {
                    self.finished = true;
                    PoolAction::Finish
                } else {
                    PoolAction::Continue
                }
            },
            PoolEvent::TaskFinished { succeeded } => {
                self.in_flight = self.in_flight - 1;
                if succeeded {
                    self.succeeded = self.succeeded + 1;
                } else {
                    self.failed = self.failed + 1;
                }
                if self.input_closed && self.in_flight == 0 {
                    self.finished = true;
                    PoolAction::Finish
                } else {
                    PoolAction::Continue
                }
            },
        }
    }
}

/// The state reached by feeding `events` to a pool in state `p`, or none if some
/// event could not have been observed where it came.
pub open spec fn run(p: Pool, events: Seq<PoolEvent>) -> Option<Pool>
    decreases events.len(),
{
    if events.len() == 0 {
        Some(p)
    } else if p.allows(events[0]) {
        run(p.next(events[0]).0, events.drop_first())
    } else {
        None
    }
}

/// How many of the actions returned along `run(p, events)` are `a`.
pub open spec fn action_count(p: Pool, events: Seq<PoolEvent>, a: PoolAction) -> nat
    decreases events.len(),
{
    if events.len() == 0 || !p.allows(events[0]) {
        0
    } else {
        let (q, b) = p.next(events[0]);
        (if b == a { 1nat } else { 0nat }) + action_count(q, events.drop_first(), a)
    }
}

/// Whatever the number of items and the order in which tasks complete, a pool
/// never has more tasks in flight than its cap: every state it can reach keeps
/// the invariant, and the cap itself never changes.
pub proof fn lemma_pool_within_limit(p: Pool, events: Seq<PoolEvent>)
    requires
        p.wf(),
        run(p, events).is_some(),
    ensures
        run(p, events).unwrap().wf(),
        run(p, events).unwrap().in_flight <= p.limit,
        run(p, events).unwrap().limit == p.limit,
        run(p, events).unwrap().admitted == run(p, events).unwrap().succeeded
            + run(p, events).unwrap().failed + run(p, events).unwrap().in_flight,
    decreases events.len(),
{
    if events.len() > 0 {
        lemma_pool_within_limit(p.next(events[0]).0, events.drop_first());
    }
}

/// Once a pool has seen its input closed it admits no further task, whatever
/// happens next.
pub proof fn lemma_pool_no_admission_after_close(p: Pool, events: Seq<PoolEvent>)
    requires
        p.wf(),
        p.input_closed,
        run(p, events).is_some(),
    ensures
        action_count(p, events, PoolAction::Spawn) == 0,
        run(p, events).unwrap().input_closed,
    decreases events.len(),
{
    if events.len() > 0 {
        lemma_pool_no_admission_after_close(p.next(events[0]).0, events.drop_first());
    }
}

/// A pool finishes exactly once, and only after draining: along any run it
/// returns `Finish` once if it ends finished and was not finished before, and
/// never otherwise; a finished pool has its input closed and nothing in flight,
/// and every task it admitted has completed.
pub proof fn lemma_pool_finishes_once(p: Pool, events: Seq<PoolEvent>)
    requires
        p.wf(),
        run(p, events).is_some(),
    ensures
        action_count(p, events, PoolAction::Finish) == (if run(p, events).unwrap().finished
            && !p.finished { 1nat } else { 0nat }),
        run(p, events).unwrap().finished ==> run(p, events).unwrap().input_closed
            && run(p, events).unwrap().in_flight == 0 && run(p, events).unwrap().admitted
            == run(p, events).unwrap().succeeded + run(p, events).unwrap().failed,
        p.finished ==> events.len() == 0,
    decreases events.len(),
{
    if events.len() > 0 {
        let q = p.next(events[0]).0;
        lemma_pool_finishes_once(q, events.drop_first());
        lemma_pool_within_limit(q, events.drop_first());
    }
}

/// The runs above cover everything a driver can observe: while the pool
/// accepts input, whatever the input queue yields (an item or its closure) is
/// admissible; while a task is in flight, its completion is admissible, either
/// way it ends; and a pool that has not finished always waits on at least one
/// of the two, so it can never stall (short of its task counters reaching
/// `u64::MAX`).
pub proof fn lemma_pool_driver_events(p: Pool, succeeded: bool)
    requires
        p.wf(),
    ensures
        p.spec_accepts_input() ==> p.allows(PoolEvent::Received) && p.allows(PoolEvent::InputClosed),
        p.in_flight > 0 && p.succeeded < u64::MAX && p.failed < u64::MAX ==> p.allows(
            PoolEvent::TaskFinished { succeeded },
        ),
        !p.finished && p.admitted < u64::MAX ==> p.spec_accepts_input() || p.in_flight > 0,
{
}

} // verus!
