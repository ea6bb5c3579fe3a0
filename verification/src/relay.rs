//! The request relay: inbound requests are decoded per connection, queued
//! in a bounded FIFO shared by all connections, and taken one at a time by
//! the single worker that owns the provider. Only the decisions live here;
//! sockets, tasks and the worker loop itself are unverified shell.
//!
//! Backpressure policy: enqueuing onto a full queue fails synchronously
//! with `QueueFull`; nothing is ever dropped or overwritten silently.
//! Replies follow submission order because the queue is FIFO and the one
//! worker finishes each request before taking the next. Closing a
//! connection leaves its queued requests in place; their replies are
//! discarded on delivery.

use crate::errors::ErrorKind;
use crate::prompts::{flat_add, TextPrompt};
use vstd::prelude::*;

verus! {

/// One inbound code-generation request, immutable once enqueued.
pub struct GenerationRequest {
    pub priming: String,
    pub problem: String,
    pub solution: String,
}

impl View for GenerationRequest {
    type V = (Seq<char>, Seq<char>, Seq<char>);

    open spec fn view(&self) -> (Seq<char>, Seq<char>, Seq<char>) {
        (self.priming@, self.problem@, self.solution@)
    }
}

/// A request tagged with the connection it arrived on.
pub struct QueuedRequest {
    pub conn_id: u64,
    pub request: GenerationRequest,
}

impl View for QueuedRequest {
    type V = (u64, (Seq<char>, Seq<char>, Seq<char>));

    open spec fn view(&self) -> (u64, (Seq<char>, Seq<char>, Seq<char>)) {
        (self.conn_id, self.request@)
    }
}

/// The queue capacity used when none is given.
pub const DEFAULT_QUEUE_CAPACITY: usize = 32;

/// What enqueuing does to queue contents `s` under `capacity`: appends at
/// the tail when below capacity, otherwise leaves the queue unchanged and
/// reports failure.
pub open spec fn spec_enqueue<T>(s: Seq<T>, capacity: int, r: T) -> (Seq<T>, bool) {
    if s.len() < capacity {
        (s.push(r), true)
    } else {
        (s, false)
    }
}

/// What dequeuing does to queue contents `s`: takes the front element,
/// if any.
pub open spec fn spec_dequeue<T>(s: Seq<T>) -> (Seq<T>, Option<T>) {
    if s.len() == 0 {
        (s, None)
    } else {
        (s.drop_first(), Some(s[0]))
    }
}

/// A bounded FIFO of pending requests. Capacity is fixed at construction
/// and never exceeded.
pub struct RequestQueue {
    items: Vec<QueuedRequest>,
    capacity: usize,
}

impl View for RequestQueue {
    type V = Seq<(u64, (Seq<char>, Seq<char>, Seq<char>))>;

    closed spec fn view(&self) -> Seq<(u64, (Seq<char>, Seq<char>, Seq<char>))> {
        Seq::new(self.items@.len(), |i: int| self.items@[i]@)
    }
}

impl RequestQueue {
    /// The fixed capacity.
    pub closed spec fn spec_capacity(&self) -> int {
        self.capacity as int
    }

    /// The queue never holds more than its capacity.
    pub open spec fn wf(&self) -> bool {
        self@.len() <= self.spec_capacity()
    }

    /// An empty queue with the given capacity.
    pub fn new(capacity: usize) -> (q: RequestQueue)
        ensures
            q@ == Seq::<(u64, (Seq<char>, Seq<char>, Seq<char>))>::empty(),
            q.spec_capacity() == capacity,
            q.wf(),
    {
        let q = RequestQueue { items: Vec::new(), capacity };
        proof {
            assert(q@ =~= Seq::<(u64, (Seq<char>, Seq<char>, Seq<char>))>::empty());
        }
        q
    }

    /// An empty queue with the default capacity.
    pub fn with_default_capacity() -> (q: RequestQueue)
        ensures
            q@ == Seq::<(u64, (Seq<char>, Seq<char>, Seq<char>))>::empty(),
            q.spec_capacity() == DEFAULT_QUEUE_CAPACITY,
            q.wf(),
    {
        Self::new(DEFAULT_QUEUE_CAPACITY)
    }

    /// How many requests are pending.
    pub fn len(&self) -> (n: usize)
        ensures
            n == self@.len(),
    {
        self.items.len()
    }

    /// The fixed capacity.
    pub fn capacity(&self) -> (n: usize)
        ensures
            n == self.spec_capacity(),
    {
        self.capacity
    }

    /// Appends a request at the tail, or fails with `QueueFull` leaving
    /// the queue exactly as it was: a full queue never silently drops or
    /// overwrites a request.
    pub fn enqueue(&mut self, r: QueuedRequest) -> (res: Result<(), ErrorKind>)
        requires
            old(self).wf(),
        ensures
            final(self).wf(),
            final(self).spec_capacity() == old(self).spec_capacity(),
            ((final(self)@, res is Ok) == spec_enqueue(old(self)@, old(self).spec_capacity(), r@)),
            old(self)@.len() < old(self).spec_capacity() ==> res is Ok && final(self)@ == old(
                self,
            )@.push(r@),
            old(self)@.len() >= old(self).spec_capacity() ==> res == Err::<(), ErrorKind>(
                ErrorKind::QueueFull,
            ) && final(self)@ == old(self)@,
    {
        if self.items.len() < self.capacity {
            self.items.push(r);
            proof {
                assert(self@ =~= old(self)@.push(r@));
            }
            Ok(())
        } else {
            Err(ErrorKind::QueueFull)
        }
    }

    /// Takes the request at the front, in strict FIFO order.
    pub fn dequeue(&mut self) -> (res: Option<QueuedRequest>)
        requires
            old(self).wf(),
        ensures
            final(self).wf(),
            final(self).spec_capacity() == old(self).spec_capacity(),
            old(self)@.len() == 0 ==> res is None && final(self)@ == old(self)@,
            old(self)@.len() > 0 ==> (res matches Some(q) && q@ == old(self)@[0] && final(self)@
                == old(self)@.drop_first()),
            final(self)@ == spec_dequeue(old(self)@).0,
            res is None <==> spec_dequeue(old(self)@).1 is None,
            res matches Some(q) ==> spec_dequeue(old(self)@).1 == Some(q@),
    {
        if self.items.len() == 0 {
            None
        } else {
            let q = self.items.remove(0);
            proof {
                assert(self@ =~= old(self)@.drop_first());
            }
            Some(q)
        }
    }
}

/// Per-connection lifecycle: `Open` on accept, `Receiving` once traffic
/// arrives, `Closed` terminal.
#[derive(Clone, Copy, Debug, PartialEq, Eq, Structural)]
pub enum ConnState {
    Open,
    Receiving,
    Closed,
}

/// What handling one inbound frame did.
#[derive(Clone, Copy, Debug, PartialEq, Eq, Structural)]
pub enum MessageOutcome {
    Enqueued,
    DroppedMalformed,
    RejectedQueueFull,
    IgnoredClosed,
}

/// Handles one inbound frame on a connection: a malformed frame (`None`,
/// the decoder having failed) is dropped without harming the connection;
/// a decoded request is enqueued, or rejected with the queue full; frames
/// on a closed connection are ignored. The connection moves to
/// `Receiving` on any frame while it is not closed.
pub fn on_message(
    state: ConnState,
    decoded: Option<GenerationRequest>,
    conn_id: u64,
    queue: &mut RequestQueue,
) -> (r: (ConnState, MessageOutcome))
    requires
        old(queue).wf(),
    ensures
        final(queue).wf(),
        final(queue).spec_capacity() == old(queue).spec_capacity(),
        state is Closed ==> r == (ConnState::Closed, MessageOutcome::IgnoredClosed)
            && final(queue)@ == old(queue)@,
        !(state is Closed) && decoded is None ==> r == (
            ConnState::Receiving,
            MessageOutcome::DroppedMalformed,
        ) && final(queue)@ == old(queue)@,
        !(state is Closed) ==> (decoded matches Some(req) ==> (old(queue)@.len()
            < old(queue).spec_capacity() ==> r == (ConnState::Receiving, MessageOutcome::Enqueued)
            && final(queue)@ == old(queue)@.push((conn_id, req@))) && (old(queue)@.len()
            >= old(queue).spec_capacity() ==> r == (
            ConnState::Receiving,
            MessageOutcome::RejectedQueueFull,
        ) && final(queue)@ == old(queue)@)),
{
    match state {
        ConnState::Closed => (ConnState::Closed, MessageOutcome::IgnoredClosed),
        _ => match decoded {
            None => (ConnState::Receiving, MessageOutcome::DroppedMalformed),
            Some(request) => {
                match queue.enqueue(QueuedRequest { conn_id, request }) {
                    Ok(_) => (ConnState::Receiving, MessageOutcome::Enqueued),
                    Err(_) => (ConnState::Receiving, MessageOutcome::RejectedQueueFull),
                }
            },
        },
    }
}

/// Marks the connection closed. Closing touches no queue state: a request
/// already queued from this connection stays queued and is still
/// processed in its turn; only its reply will be discarded.
pub fn on_close(state: ConnState) -> (r: ConnState)
    ensures
        r is Closed,
{
    let _ = state;
    ConnState::Closed
}

/// Whether a finished request's reply reaches its connection: delivered
/// only while the connection is not closed, discarded otherwise.
pub open spec fn spec_deliver(state: ConnState, reply: Seq<char>) -> Option<Seq<char>> {
    if state is Closed {
        None
    } else {
        Some(reply)
    }
}

/// Hands the reply back for a connection still open, or discards it for
/// a closed one.
pub fn deliver_reply(state: ConnState, reply: String) -> (r: Option<String>)
    ensures
        state is Closed ==> r is None,
        !(state is Closed) ==> (r matches Some(s) && s@ == reply@),
        r is None <==> spec_deliver(state, reply@) is None,
        r matches Some(s) ==> spec_deliver(state, reply@) == Some(s@),
{
    match state {
        ConnState::Closed => None,
        _ => Some(reply),
    }
}

/// The worker's prompt for one request: priming, problem and solution
/// content rendered flat, one line each, in that order.
pub fn build_request_prompt(req: &GenerationRequest) -> (p: String)
    ensures
        p@ == flat_add(flat_add(flat_add(Seq::empty(), req@.0), req@.1), req@.2),
{
    let mut t = TextPrompt::new();
    t.add_priming(req.priming.as_str());
    t.add_problem(req.problem.as_str());
    t.add_solution(req.solution.as_str());
    t.get()
}

/// Law: the queue is FIFO. In a queue that held `s`, after `k` requests
/// have been taken the contents are `s.skip(k)`, and the next dequeue
/// yields exactly `s[k]`. With the single worker finishing each request
/// before taking the next, requests — in particular two requests
/// submitted on the same connection — are processed, and their replies
/// produced, in exactly the order they entered the queue.
pub proof fn lemma_dequeue_order<T>(s: Seq<T>, k: int)
    requires
        0 <= k < s.len(),
    ensures
        spec_dequeue(s.skip(k)).1 == Some(s[k]),
        spec_dequeue(s.skip(k)).0 == s.skip(k + 1),
{
    assert(s.skip(k)[0] == s[k]);
    assert(s.skip(k).drop_first() =~= s.skip(k + 1));
}

/// Law: replies are observed in submission order. Two requests enqueued
/// in order onto a queue with room for both land at increasing positions
/// and are dequeued first-then-second, whatever was queued before them.
pub proof fn lemma_replies_in_submission_order<T>(s0: Seq<T>, capacity: int, r1: T, r2: T)
    requires
        s0.len() + 2 <= capacity,
    ensures
        ({
            let (s1, ok1) = spec_enqueue(s0, capacity, r1);
            let (s2, ok2) = spec_enqueue(s1, capacity, r2);
            ok1 && ok2 && spec_dequeue(s2.skip(s0.len() as int)).1 == Some(r1) && spec_dequeue(
                spec_dequeue(s2.skip(s0.len() as int)).0,
            ).1 == Some(r2)
        }),
{
    let (s1, ok1) = spec_enqueue(s0, capacity, r1);
    let (s2, ok2) = spec_enqueue(s1, capacity, r2);
    assert(s2[s0.len() as int] == r1);
    assert(s2[s0.len() as int + 1] == r2);
    lemma_dequeue_order(s2, s0.len() as int);
    lemma_dequeue_order(s2, s0.len() as int + 1);
}

/// Law: enqueuing never silently drops or overwrites. Below capacity the
/// request is appended at the tail and everything queued stays in place;
/// at capacity the attempt fails and the queue is exactly as it was.
pub proof fn lemma_enqueue_never_drops<T>(s: Seq<T>, capacity: int, r: T)
    ensures
        ({
            let (s2, ok) = spec_enqueue(s, capacity, r);
            (s.len() < capacity ==> ok && s2 == s.push(r)) && (s.len() >= capacity ==> !ok && s2
                == s)
        }),
{
}

/// Law: closing a connection after it queued a request does not disturb
/// the queue: the request at its position `k` is still the one dequeued
/// in its turn and completes as usual; only the reply, on delivery to the
/// now-closed connection, is discarded.
pub proof fn lemma_closed_connection_request_completes<T>(s: Seq<T>, k: int, reply: Seq<char>)
    requires
        0 <= k < s.len(),
    ensures
        spec_dequeue(s.skip(k)).1 == Some(s[k]),
        spec_deliver(ConnState::Closed, reply) is None,
{
    lemma_dequeue_order(s, k);
}

} // verus!
