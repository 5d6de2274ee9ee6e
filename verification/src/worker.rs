//! A worker shard: one bounded FIFO queue of events and the steps that
//! drain it into the processor.
//!
//! The queue is crossbeam's `ArrayQueue`. It is opaque to the verifier; its
//! contents and its construction bound are named below, and each operation
//! the worker performs goes through a trusted wrapper stating what
//! crossbeam's documentation promises.

use vstd::prelude::*;

use crate::engine::EngineCore;
use crate::event::Event;
use crate::processor::{apply_event, spec_process, spec_process_seq};
use crate::QUEUE_CAPACITY;

verus! {

/// What the queue holds, head first.
pub uninterp spec fn queue_view(q: crossbeam::queue::ArrayQueue<Event>) -> Seq<Event>;

/// The fixed capacity the queue was constructed with.
pub uninterp spec fn queue_bound(q: crossbeam::queue::ArrayQueue<Event>) -> usize;

/// Relies on crossbeam's ArrayQueue::new: a fresh queue is empty and holds
/// at most `cap` elements. It panics on a zero (or absurdly large) capacity,
/// so those are required away.
#[verifier::external_body]
fn queue_new(cap: usize) -> (q: crossbeam::queue::ArrayQueue<Event>)
    requires
        1 <= cap <= 0x1000_0000,
    ensures
        queue_view(q) == Seq::<Event>::empty(),
        queue_bound(q) == cap,
{
    crossbeam::queue::ArrayQueue::new(cap)
}

/// Relies on crossbeam's ArrayQueue::push: appends at the tail, or hands the
/// element back when the queue is full.
#[verifier::external_body]
fn queue_push(q: &mut crossbeam::queue::ArrayQueue<Event>, event: Event) -> (r: Result<(), Event>)
    ensures
        queue_bound(*final(q)) == queue_bound(*old(q)),
        r is Ok <==> queue_view(*old(q)).len() < queue_bound(*old(q)),
        r is Ok ==> queue_view(*final(q)) == queue_view(*old(q)).push(event),
        r is Err ==> queue_view(*final(q)) == queue_view(*old(q)),
        r matches Err(e) ==> e == event,
{
    q.push(event)
}

/// Relies on crossbeam's ArrayQueue::pop: removes and returns the head, or
/// returns nothing when the queue is empty.
#[verifier::external_body]
fn queue_pop(q: &mut crossbeam::queue::ArrayQueue<Event>) -> (r: Option<Event>)
    ensures
        queue_bound(*final(q)) == queue_bound(*old(q)),
        r is Some <==> queue_view(*old(q)).len() > 0,
        r is None ==> queue_view(*final(q)) == queue_view(*old(q)),
        r is Some ==> r == Some::<Event>(queue_view(*old(q))[0]) && queue_view(*final(q))
            == queue_view(*old(q)).subrange(1, queue_view(*old(q)).len() as int),
{
    q.pop()
}

/// Relies on crossbeam's ArrayQueue::is_empty.
#[verifier::external_body]
fn queue_is_empty(q: &crossbeam::queue::ArrayQueue<Event>) -> (r: bool)
    ensures
        r == (queue_view(*q).len() == 0),
{
    q.is_empty()
}

/// One worker shard: the bounded queue that the engine feeds and the worker
/// empties in FIFO order. Shutdown never discards queued work: the worker
/// keeps processing until its queue is empty.
pub struct Worker {
    pub queue: crossbeam::queue::ArrayQueue<Event>,
}

impl Worker {
    /// The queued events, next-to-process first.
    pub open spec fn events(self) -> Seq<Event> {
        queue_view(self.queue)
    }

    /// The queue's fixed capacity.
    pub open spec fn capacity(self) -> usize {
        queue_bound(self.queue)
    }

    pub open spec fn wf(self) -> bool {
        &&& self.capacity() == QUEUE_CAPACITY
        &&& self.events().len() <= self.capacity()
    }

    /// A fresh worker with an empty queue of the standard capacity.
    pub fn new() -> (w: Worker)
        ensures
            w.wf(),
            w.events() == Seq::<Event>::empty(),
    {
        Worker { queue: queue_new(QUEUE_CAPACITY) }
    }

    /// Enqueue one event, or hand it back when the queue is saturated.
    pub(crate) fn enqueue(&mut self, event: Event) -> (r: Result<(), Event>)
        requires
            old(self).wf(),
        ensures
            final(self).wf(),
            r is Ok <==> old(self).events().len() < old(self).capacity(),
            r is Ok ==> final(self).events() == old(self).events().push(event),
            r is Err ==> final(self).events() == old(self).events(),
    {
        queue_push(&mut self.queue, event)
    }

    /// Hand one event to the processor.
    pub fn process_event(core: &mut EngineCore, event: &Event)
        requires
            old(core).wf(),
        ensures
            final(core).wf(),
            final(core).ledger == old(core).ledger,
            final(core).shutdown == old(core).shutdown,
            final(core).accounts() == spec_process(
                old(core).ledger.txs(),
                old(core).accounts(),
                *event,
            ),
    {
        apply_event(core, event);
    }

    /// One scheduling step: pop the next event, if any, and process it.
    pub fn step(&mut self, core: &mut EngineCore) -> (processed: bool)
        requires
            old(core).wf(),
            old(self).wf(),
        ensures
            final(self).wf(),
            final(core).wf(),
            final(core).ledger == old(core).ledger,
            final(core).shutdown == old(core).shutdown,
            processed == (old(self).events().len() > 0),
            !processed ==> final(self).events() == old(self).events() && final(core).accounts()
                == old(core).accounts(),
            processed ==> final(self).events() == old(self).events().subrange(
                1,
                old(self).events().len() as int,
            ) && final(core).accounts() == spec_process(
                old(core).ledger.txs(),
                old(core).accounts(),
                old(self).events()[0],
            ),
    {
        match queue_pop(&mut self.queue) {
            None => false,
            Some(event) => {
                apply_event(core, &event);
                true
            },
        }
    }

    /// The draining phase: keep processing until the queue is empty, in FIFO
    /// order. No queued event is ever dropped.
    pub fn drain(&mut self, core: &mut EngineCore)
        requires
            old(core).wf(),
            old(self).wf(),
        ensures
            final(self).wf(),
            final(core).wf(),
            final(core).ledger == old(core).ledger,
            final(core).shutdown == old(core).shutdown,
            final(self).events().len() == 0,
            final(core).accounts() == spec_process_seq(
                old(core).ledger.txs(),
                old(core).accounts(),
                old(self).events(),
            ),
    {
        let ghost txs0 = core.ledger.txs();
        let ghost chart0 = core.accounts();
        let ghost events0 = self.events();
        let ghost ledger0 = core.ledger;
        let ghost shutdown0 = core.shutdown;
        while !queue_is_empty(&self.queue)
            invariant
                core.wf(),
                self.wf(),
                core.ledger == ledger0,
                core.shutdown == shutdown0,
                txs0 == ledger0.txs(),
                spec_process_seq(txs0, core.accounts(), self.events()) == spec_process_seq(
                    txs0,
                    chart0,
                    events0,
                ),
            decreases self.events().len(),
        {
            let ghost events_prev = self.events();
            let ghost chart_prev = core.accounts();
            if let Some(event) = queue_pop(&mut self.queue) {
                apply_event(core, &event);
            }
            proof {
                assert(spec_process_seq(txs0, chart_prev, events_prev) == spec_process_seq(
                    txs0,
                    spec_process(txs0, chart_prev, events_prev[0]),
                    events_prev.subrange(1, events_prev.len() as int),
                ));
            }
        }
    }
}

} // verus!
