use vstd::prelude::*;
use std::collections::VecDeque;
use crate::event::SystemEvent;

verus! {

/// First-in-first-out queue of events between the sensors and the dispatcher.
pub struct EventQueue {
    items: VecDeque<SystemEvent>,
}

impl View for EventQueue {
    type V = Seq<SystemEvent>;

    closed spec fn view(&self) -> Seq<SystemEvent> {
        self.items@
    }
}

impl EventQueue {
    /// An empty queue.
    pub fn new() -> (r: EventQueue)
        ensures
            r@ == Seq::<SystemEvent>::empty(),
    {
        EventQueue { items: VecDeque::new() }
    }

    /// Appends an event at the back.
    pub fn send(&mut self, event: SystemEvent)
        ensures
            final(self)@ == old(self)@.push(event),
    {
        self.items.push_back(event);
    }

    /// Takes the event at the front, if any.
    pub fn try_recv(&mut self) -> (r: Option<SystemEvent>)
        ensures
            old(self)@.len() == 0 ==> r is None && final(self)@ == old(self)@,
            old(self)@.len() > 0 ==> r == Some(old(self)@[0]) && final(self)@ == old(self)@.drop_first(),
    {
        self.items.pop_front()
    }

    /// Number of events waiting.
    pub fn len(&self) -> (r: usize)
        ensures
            r == self@.len(),
    {
        self.items.len()
    }

    /// Whether no event is waiting.
    pub fn is_empty(&self) -> (r: bool)
        ensures
            r == (self@.len() == 0),
    {
        self.items.len() == 0
    }
}

/// One operation on the queue.
pub enum QueueOp {
    Send(SystemEvent),
    Receive,
}

/// Runs `ops` on a queue holding `q`: the events received, in order, and what is left.
pub open spec fn queue_run(q: Seq<SystemEvent>, ops: Seq<QueueOp>) -> (Seq<SystemEvent>, Seq<SystemEvent>)
    decreases ops.len(),
{
    if ops.len() == 0 {
        (seq![], q)
    } else {
        let (got, rest) = queue_run(q, ops.drop_last());
        match ops.last() {
            QueueOp::Send(e) => (got, rest.push(e)),
            QueueOp::Receive => if rest.len() == 0 {
                (got, rest)
            } else {
                (got.push(rest[0]), rest.drop_first())
            },
        }
    }
}

/// The events that `ops` sends, in order.
pub open spec fn sent_by(ops: Seq<QueueOp>) -> Seq<SystemEvent>
    decreases ops.len(),
{
    if ops.len() == 0 {
        seq![]
    } else {
        match ops.last() {
            QueueOp::Send(e) => sent_by(ops.drop_last()).push(e),
            QueueOp::Receive => sent_by(ops.drop_last()),
        }
    }
}

/// Nothing is lost or reordered: what has been received, followed by what is
/// still queued, is exactly what was queued before followed by what was sent,
/// so events come out in the order they went in.
pub proof fn lemma_queue_keeps_order(q: Seq<SystemEvent>, ops: Seq<QueueOp>)
    ensures
        queue_run(q, ops).0 + queue_run(q, ops).1 == q + sent_by(ops),
        (q + sent_by(ops)).take(queue_run(q, ops).0.len() as int) == queue_run(q, ops).0,
    decreases ops.len(),
{
    if ops.len() > 0 {
        lemma_queue_keeps_order(q, ops.drop_last());
        let (got, rest) = queue_run(q, ops.drop_last());
        match ops.last() {
            QueueOp::Send(e) => {
                assert(got + rest.push(e) =~= (got + rest).push(e));
            },
            QueueOp::Receive => {
                if rest.len() > 0 {
                    assert(got.push(rest[0]) + rest.drop_first() =~= got + rest);
                }
            },
        }
    }
    let all = q + sent_by(ops);
    let got = queue_run(q, ops).0;
    assert(all.take(got.len() as int) =~= got);
}

} // verus!
