use std::collections::VecDeque;
use vstd::prelude::*;

use crate::error::InspectError;
use crate::response::InspectStateResponse;

verus! {

/// One submitted query together with the slot that its answer is written to.
pub struct InspectRequest<S> {
    pub payload: Vec<u8>,
    pub response_slot: S,
}

/// Where the single worker stands in serving the request it holds.
#[derive(Clone, Copy, Debug, PartialEq, Eq, Structural)]
pub enum Phase {
    /// No request is held; the next one may be taken.
    Idle,
    /// A request is held and its connection is being opened.
    Connecting,
    /// The connection is open and the remote call is under way.
    Calling,
    /// The outcome is known and is being written to the response slot.
    Responding,
}

/// What the worker is to do after asking for work.
pub enum Next<S> {
    /// Serve this request: connect, call, respond.
    Serve(InspectRequest<S>),
    /// Nothing can be taken now; ask again once something changes.
    Wait,
    /// The queue is closed and drained: the worker stops.
    Stop,
}

/// The bounded FIFO queue between the callers and the single worker, with the
/// worker's progress through the request it holds.
///
/// Ghost state records every request ever accepted, in order, how many the
/// worker has taken and how many of those have been answered.
pub struct InspectQueue<S> {
    capacity: usize,
    pending: VecDeque<InspectRequest<S>>,
    closed: bool,
    phase: Phase,
    arrivals: Ghost<Seq<InspectRequest<S>>>,
    taken: Ghost<nat>,
    answered: Ghost<nat>,
}

impl<S> InspectQueue<S> {
    /// The most unserved requests that the queue holds.
    pub closed spec fn capacity(&self) -> nat {
        self.capacity as nat
    }

    /// The unserved requests, oldest first.
    pub closed spec fn queue(&self) -> Seq<InspectRequest<S>> {
        self.pending@
    }

    pub closed spec fn is_closed_spec(&self) -> bool {
        self.closed
    }

    pub closed spec fn phase_spec(&self) -> Phase {
        self.phase
    }

    /// Every request ever accepted, in order of acceptance.
    pub closed spec fn arrivals(&self) -> Seq<InspectRequest<S>> {
        self.arrivals@
    }

    /// How many requests the worker has taken from the queue.
    pub closed spec fn taken(&self) -> nat {
        self.taken@
    }

    /// How many taken requests have had their response slot written.
    pub closed spec fn answered(&self) -> nat {
        self.answered@
    }

    pub closed spec fn wf(&self) -> bool {
        &&& self.capacity > 0
        &&& self.pending@.len() <= self.capacity
        &&& self.taken@ + self.pending@.len() == self.arrivals@.len()
        &&& self.pending@ == self.arrivals@.subrange(self.taken@ as int, self.arrivals@.len() as int)
        &&& if self.phase == Phase::Idle {
            self.answered@ == self.taken@
        } else {
            self.answered@ + 1 == self.taken@
        }
    }

    /// An empty, open queue with an idle worker.
    pub fn new(capacity: usize) -> (q: Self)
        requires
            capacity > 0,
        ensures
            q.wf(),
            q.capacity() == capacity,
            q.queue().len() == 0,
            !q.is_closed_spec(),
            q.phase_spec() == Phase::Idle,
            q.arrivals().len() == 0,
            q.taken() == 0,
            q.answered() == 0,
    {
        let q = InspectQueue {
            capacity,
            pending: VecDeque::new(),
            closed: false,
            phase: Phase::Idle,
            arrivals: Ghost(Seq::empty()),
            taken: Ghost(0),
            answered: Ghost(0),
        };
        assert(q.pending@ =~= q.arrivals@.subrange(0, 0));
        q
    }

    pub fn phase(&self) -> (r: Phase)
        ensures
            r == self.phase_spec(),
    {
        self.phase
    }

    pub fn is_closed(&self) -> (r: bool)
        ensures
            r == self.is_closed_spec(),
    {
        self.closed
    }

    /// The number of unserved requests.
    pub fn len(&self) -> (r: usize)
        ensures
            r == self.queue().len(),
    {
        self.pending.len()
    }

    /// Accepts a request at the back of the queue, or refuses it at once.
    ///
    /// A refused request is dropped, and its response slot with it, unwritten.
    pub fn submit(&mut self, request: InspectRequest<S>) -> (r: Result<(), InspectError>)
        requires
            old(self).wf(),
        ensures
            final(self).wf(),
            submit_post(*old(self), request, *final(self), r),
    {
        if self.closed {
            Err(InspectError::Closed)
        } else if self.pending.len() >= self.capacity {
            Err(InspectError::Overloaded)
        } else {
            proof {
                self.arrivals@ = self.arrivals@.push(request);
            }
            self.pending.push_back(request);
            assert(self.pending@ =~= self.arrivals@.subrange(
                self.taken@ as int,
                self.arrivals@.len() as int,
            ));
            Ok(())
        }
    }

    /// Refuses every later submission; what is queued is still served.
    pub fn close(&mut self)
        requires
            old(self).wf(),
        ensures
            final(self).wf(),
            final(self).is_closed_spec(),
            same_except_closed(*old(self), *final(self)),
    {
        self.closed = true;
    }

    /// The worker asks for its next request.
    ///
    /// Only an idle worker is handed one, the oldest unserved: a request is
    /// never taken before the response of the one before it was written.
    pub fn take_next(&mut self) -> (r: Next<S>)
        requires
            old(self).wf(),
        ensures
            final(self).wf(),
            take_post(*old(self), *final(self), r),
    {
        if self.phase != Phase::Idle {
            Next::Wait
        } else if self.pending.len() == 0 {
            if self.closed {
                Next::Stop
            } else {
                Next::Wait
            }
        } else {
            assert(self.pending@[0] == self.arrivals@[self.taken@ as int]);
            let ghost before = self.pending@;
            let request = self.pending.pop_front().unwrap();
            proof {
                self.taken@ = self.taken@ + 1;
            }
            self.phase = Phase::Connecting;
            assert(self.pending@ =~= self.arrivals@.subrange(
                self.taken@ as int,
                self.arrivals@.len() as int,
            ));
            assert(self.pending@ =~= before.drop_first());
            Next::Serve(request)
        }
    }

    /// Records the outcome of opening the connection for the held request.
    ///
    /// On failure the returned error is the answer for that request, and the
    /// worker goes on to respond; the queue is not touched either way.
    pub fn connected(&mut self, outcome: Result<(), String>) -> (r: Result<(), InspectError>)
        requires
            old(self).wf(),
            old(self).phase_spec() == Phase::Connecting,
        ensures
            final(self).wf(),
            connected_post(*old(self), outcome, *final(self), r),
    {
        match outcome {
            Ok(()) => {
                self.phase = Phase::Calling;
                Ok(())
            },
            Err(message) => {
                self.phase = Phase::Responding;
                Err(InspectError::ConnectionFailed { message })
            },
        }
    }

    /// Records the outcome of the remote call and gives the answer to write.
    ///
    /// A reply is handed on exactly as it came; a failure carries its message.
    pub fn called(&mut self, outcome: Result<InspectStateResponse, String>) -> (r: Result<
        InspectStateResponse,
        InspectError,
    >)
        requires
            old(self).wf(),
            old(self).phase_spec() == Phase::Calling,
        ensures
            final(self).wf(),
            called_post(*old(self), outcome, *final(self), r),
    {
        self.phase = Phase::Responding;
        match outcome {
            Ok(response) => Ok(response),
            Err(message) => Err(InspectError::CallFailed { message }),
        }
    }

    /// Records that the answer was handed to the response slot.
    ///
    /// Whether the caller was still there to receive it (`delivered`) changes
    /// nothing: the worker is idle again either way.
    pub fn responded(&mut self, delivered: bool)
        requires
            old(self).wf(),
            old(self).phase_spec() == Phase::Responding,
        ensures
            final(self).wf(),
            responded_post(*old(self), *final(self)),
    {
        self.phase = Phase::Idle;
        proof {
            self.answered@ = self.answered@ + 1;
        }
    }
}

impl<S> InspectQueue<S> {
    /// Every accepted request is in exactly one state: answered, held by the
    /// worker, or waiting in the queue at the place of its arrival order; at
    /// most one is held. So none is lost, none is answered twice, and the
    /// requests ahead of a waiting one are only those accepted before it.
    pub proof fn lemma_request_states(&self, k: int)
        requires
            self.wf(),
            0 <= k < self.arrivals().len(),
        ensures
            self.answered() <= self.taken() <= self.arrivals().len(),
            self.taken() <= self.answered() + 1,
            k < self.answered() || (self.answered() <= k < self.taken()) || self.taken() <= k,
            self.answered() <= k < self.taken() ==> self.phase_spec() != Phase::Idle,
            self.taken() <= k ==> self.queue()[k - self.taken()] == self.arrivals()[k],
    {
    }

    /// Requests are served in arrival order, one at a time: once a request
    /// has been taken, every request accepted before it has been answered.
    pub proof fn lemma_served_in_order(&self, a: int, b: int)
        requires
            self.wf(),
            0 <= a < b,
            b < self.taken(),
        ensures
            a < self.answered(),
    {
    }
}

/// Once the held request is answered, whether or not its caller was still
/// waiting, the worker's next request is the oldest waiting one.
pub proof fn lemma_next_served_after_response<S>(
    q1: InspectQueue<S>,
    q2: InspectQueue<S>,
    q3: InspectQueue<S>,
    r: Next<S>,
)
    requires
        q1.wf(),
        q1.phase_spec() == Phase::Responding,
        q1.queue().len() > 0,
        responded_post(q1, q2),
        take_post(q2, q3, r),
    ensures
        r matches Next::Serve(req) && req == q1.queue()[0],
        q3.phase_spec() == Phase::Connecting,
{
}

/// A failed connection answers the held request with `ConnectionFailed`, and
/// leaves the queue as it was: after that answer the next waiting request is
/// served as usual.
pub proof fn lemma_connection_failure_isolated<S>(
    q0: InspectQueue<S>,
    message: String,
    q1: InspectQueue<S>,
    answer: Result<(), InspectError>,
    q2: InspectQueue<S>,
    q3: InspectQueue<S>,
    r: Next<S>,
)
    requires
        q0.wf(),
        q0.phase_spec() == Phase::Connecting,
        q0.queue().len() > 0,
        connected_post(q0, Err(message), q1, answer),
        responded_post(q1, q2),
        take_post(q2, q3, r),
    ensures
        answer == Err::<(), InspectError>(InspectError::ConnectionFailed { message }),
        q2.answered() == q0.taken(),
        r matches Next::Serve(req) && req == q0.queue()[0],
{
    assert(q1.wf());
    lemma_next_served_after_response(q1, q2, q3, r);
}

/// The worker's phase and progress are unchanged.
pub open spec fn same_worker<S>(a: InspectQueue<S>, b: InspectQueue<S>) -> bool {
    &&& b.phase_spec() == a.phase_spec()
    &&& b.taken() == a.taken()
    &&& b.answered() == a.answered()
}

/// Everything but the closed flag is unchanged.
pub open spec fn same_except_closed<S>(a: InspectQueue<S>, b: InspectQueue<S>) -> bool {
    &&& same_worker(a, b)
    &&& b.capacity() == a.capacity()
    &&& b.queue() == a.queue()
    &&& b.arrivals() == a.arrivals()
}

/// The queue side is unchanged: capacity, contents, history and closed flag.
pub open spec fn same_queue<S>(a: InspectQueue<S>, b: InspectQueue<S>) -> bool {
    &&& b.capacity() == a.capacity()
    &&& b.queue() == a.queue()
    &&& b.arrivals() == a.arrivals()
    &&& b.is_closed_spec() == a.is_closed_spec()
}

/// What `submit` does: refuse a closed queue, refuse a full one, else append.
pub open spec fn submit_post<S>(
    a: InspectQueue<S>,
    request: InspectRequest<S>,
    b: InspectQueue<S>,
    r: Result<(), InspectError>,
) -> bool {
    &&& same_worker(a, b)
    &&& b.capacity() == a.capacity()
    &&& b.is_closed_spec() == a.is_closed_spec()
    &&& if a.is_closed_spec() {
        &&& r == Err::<(), InspectError>(InspectError::Closed)
        &&& b == a
    } else if a.queue().len() == a.capacity() {
        &&& r == Err::<(), InspectError>(InspectError::Overloaded)
        &&& b == a
    } else {
        &&& r == Ok::<(), InspectError>(())
        &&& b.queue() == a.queue().push(request)
        &&& b.arrivals() == a.arrivals().push(request)
    }
}

/// What `take_next` does: an idle worker gets the oldest request, or stops
/// once the queue is closed and empty; otherwise nothing changes.
pub open spec fn take_post<S>(a: InspectQueue<S>, b: InspectQueue<S>, r: Next<S>) -> bool {
    &&& b.capacity() == a.capacity()
    &&& b.arrivals() == a.arrivals()
    &&& b.is_closed_spec() == a.is_closed_spec()
    &&& b.answered() == a.answered()
    &&& if a.phase_spec() == Phase::Idle && a.queue().len() > 0 {
        &&& r matches Next::Serve(req) && req == a.queue()[0] && req == a.arrivals()[a.taken() as int]
        &&& b.queue() == a.queue().drop_first()
        &&& b.taken() == a.taken() + 1
        &&& b.phase_spec() == Phase::Connecting
    } else {
        &&& b == a
        &&& if a.phase_spec() == Phase::Idle && a.is_closed_spec() {
            r is Stop
        } else {
            r is Wait
        }
    }
}

/// What `connected` does: go on to call, or answer with the connection error.
pub open spec fn connected_post<S>(
    a: InspectQueue<S>,
    outcome: Result<(), String>,
    b: InspectQueue<S>,
    r: Result<(), InspectError>,
) -> bool {
    &&& same_queue(a, b)
    &&& b.taken() == a.taken()
    &&& b.answered() == a.answered()
    &&& match outcome {
        Ok(()) => r == Ok::<(), InspectError>(()) && b.phase_spec() == Phase::Calling,
        Err(message) => {
            &&& r == Err::<(), InspectError>(InspectError::ConnectionFailed { message })
            &&& b.phase_spec() == Phase::Responding
        },
    }
}

/// What `called` does: pass the reply on unmodified, or answer with the failure.
pub open spec fn called_post<S>(
    a: InspectQueue<S>,
    outcome: Result<InspectStateResponse, String>,
    b: InspectQueue<S>,
    r: Result<InspectStateResponse, InspectError>,
) -> bool {
    &&& same_queue(a, b)
    &&& b.taken() == a.taken()
    &&& b.answered() == a.answered()
    &&& b.phase_spec() == Phase::Responding
    &&& match outcome {
        Ok(response) => r == Ok::<InspectStateResponse, InspectError>(response),
        Err(message) => r == Err::<InspectStateResponse, InspectError>(
            InspectError::CallFailed { message },
        ),
    }
}

/// What `responded` does: the held request counts as answered, the worker is idle.
pub open spec fn responded_post<S>(a: InspectQueue<S>, b: InspectQueue<S>) -> bool {
    &&& same_queue(a, b)
    &&& b.taken() == a.taken()
    &&& b.answered() == a.answered() + 1
    &&& b.phase_spec() == Phase::Idle
}

} // verus!
