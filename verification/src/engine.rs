//! The engine: the shared state (ledger, account chart, shutdown flag) and
//! the dispatcher that shards incoming events across the worker queues by
//! client id, so that all of one client's events are handled by exactly one
//! worker, in submission order.

use vstd::prelude::*;

use crate::account::Account;
use crate::event::Event;
use crate::ledger::{spec_record, DisputeEvent, Ledger, LedgerError, Transaction};
use crate::processor::{spec_process, spec_process_queues, spec_process_seq};
use crate::worker::Worker;
use crate::WORKERS_COUNT;
use crate::QUEUE_CAPACITY;

verus! {

/// What the account chart holds: each known client's account.
pub uninterp spec fn chart_view(m: dashmap::DashMap<u16, Account>) -> Map<u16, Account>;

/// Relies on dashmap::DashMap::new: a fresh map is empty.
#[verifier::external_body]
pub(crate) fn chart_new() -> (m: dashmap::DashMap<u16, Account>)
    ensures
        forall|c: u16| !chart_view(m).dom().contains(c),
{
    dashmap::DashMap::new()
}

/// Relies on dashmap::DashMap::get: returns the account stored under the
/// client id, if any.
#[verifier::external_body]
pub(crate) fn chart_get(m: &dashmap::DashMap<u16, Account>, client: u16) -> (r: Option<Account>)
    ensures
        r == (if chart_view(*m).dom().contains(client) {
            Some(chart_view(*m)[client])
        } else {
            None::<Account>
        }),
{
    m.get(&client).map(|a| *a.value())
}

/// Relies on dashmap::DashMap::insert: stores the account under the client
/// id, replacing any previous one.
#[verifier::external_body]
pub(crate) fn chart_insert(m: &mut dashmap::DashMap<u16, Account>, client: u16, account: Account)
    ensures
        chart_view(*final(m)) == chart_view(*old(m)).insert(client, account),
{
    m.insert(client, account);
}

/// Relies on dashmap::DashMap::iter: yields every stored entry exactly once,
/// in no promised order.
#[verifier::external_body]
pub(crate) fn chart_entries(m: &dashmap::DashMap<u16, Account>) -> (r: Vec<(u16, Account)>)
    ensures
        forall|i: int|
            0 <= i < r@.len() ==> #[trigger] chart_view(*m).contains_pair(r@[i].0, r@[i].1),
        forall|c: u16|
            #[trigger] chart_view(*m).dom().contains(c) ==> exists|i: int|
                0 <= i < r@.len() && r@[i].0 == c,
        forall|i: int, j: int| 0 <= i < j < r@.len() ==> r@[i].0 != r@[j].0,
{
    m.iter().map(|entry| (*entry.key(), *entry.value())).collect()
}

/// The state every component shares: the ledger, the account chart, and the
/// one-shot shutdown signal.
pub struct EngineCore {
    pub ledger: Ledger,
    pub chart: dashmap::DashMap<u16, Account>,
    pub shutdown: bool,
}

impl EngineCore {
    /// The account chart, by client id.
    pub open spec fn accounts(self) -> Map<u16, Account> {
        chart_view(self.chart)
    }

    /// The ledger is well formed, the chart is finite, and every account
    /// sits under its own client id.
    pub open spec fn wf(self) -> bool {
        &&& self.ledger.wf()
        &&& self.accounts().dom().finite()
        &&& forall|c: u16|
            #[trigger] self.accounts().dom().contains(c) ==> self.accounts()[c].id == c
    }

    /// Every known account, as a list of `(client id, account)` pairs, each
    /// client exactly once, in no promised order.
    pub fn accounts_vec(&self) -> (r: Vec<(u16, Account)>)
        ensures
            forall|i: int|
                0 <= i < r@.len() ==> #[trigger] self.accounts().contains_pair(r@[i].0, r@[i].1),
            forall|c: u16|
                #[trigger] self.accounts().dom().contains(c) ==> exists|i: int|
                    0 <= i < r@.len() && r@[i].0 == c,
            forall|i: int, j: int| 0 <= i < j < r@.len() ==> r@[i].0 != r@[j].0,
    {
        chart_entries(&self.chart)
    }
}

impl Default for EngineCore {
    fn default() -> (core: EngineCore)
        ensures
            core.wf(),
            core.ledger.txs() == Map::<u32, Transaction>::empty(),
            core.ledger.dhist() == Map::<u32, Seq<DisputeEvent>>::empty(),
            core.accounts() == Map::<u16, Account>::empty(),
            !core.shutdown,
    {
        let core = EngineCore { ledger: Ledger::default(), chart: chart_new(), shutdown: false };
        proof {
            assert(core.accounts().dom() =~= Set::<u16>::empty());
            assert(core.accounts() =~= Map::<u16, Account>::empty());
        }
        core
    }
}

/// Why `Engine::submit_event` did not enqueue the event.
#[derive(Debug, Clone, Copy, PartialEq, Eq)]
pub enum DispatchError {
    /// The ledger rejected the event. The event is then not forwarded to a
    /// worker, so a rejected event never mutates any account.
    Rejected(LedgerError),
    /// The shard's bounded queue is saturated: backpressure by rejection.
    QueueFull,
}

/// The engine: the shared core and one worker (queue) per shard. Incoming
/// events go to the shard `client_id mod WORKERS_COUNT`, which keeps all of
/// one client's events on one FIFO queue.
pub struct Engine {
    pub core: EngineCore,
    pub workers: Vec<Worker>,
}

impl Engine {
    /// The queued events of each shard, next-to-process first.
    pub open spec fn queues(self) -> Seq<Seq<Event>> {
        Seq::new(self.workers@.len() as nat, |i: int| self.workers@[i].events())
    }

    pub open spec fn wf(self) -> bool {
        &&& self.core.wf()
        &&& self.workers@.len() == WORKERS_COUNT
        &&& forall|i: int| 0 <= i < self.workers@.len() ==> (#[trigger] self.workers@[i]).wf()
    }

    /// A fresh engine: empty ledger and chart, one empty queue per worker,
    /// shutdown not signalled.
    pub fn new() -> (e: Engine)
        ensures
            e.wf(),
            !e.core.shutdown,
            e.core.ledger.txs() == Map::<u32, Transaction>::empty(),
            e.core.ledger.dhist() == Map::<u32, Seq<DisputeEvent>>::empty(),
            e.core.accounts() == Map::<u16, Account>::empty(),
            forall|i: int| 0 <= i < e.queues().len() ==> #[trigger] e.queues()[i].len() == 0,
    {
        let mut workers: Vec<Worker> = Vec::new();
        while workers.len() < WORKERS_COUNT
            invariant
                workers@.len() <= WORKERS_COUNT,
                forall|i: int|
                    0 <= i < workers@.len() ==> (#[trigger] workers@[i]).wf()
                        && workers@[i].events().len() == 0,
            decreases WORKERS_COUNT - workers.len(),
        {
            workers.push(Worker::new());
        }
        Engine { core: EngineCore::default(), workers }
    }

    /// Record the event in the ledger; iff the ledger accepts it, forward it
    /// to its shard's queue. A ledger rejection is returned, not forwarded,
    /// so recording and application cannot disagree; a full shard queue
    /// rejects the event with `QueueFull` (the ledger keeps the record).
    pub fn submit_event(&mut self, event: Event) -> (r: Result<(), DispatchError>)
        requires
            old(self).wf(),
        ensures
            final(self).wf(),
            final(self).core.shutdown == old(self).core.shutdown,
            final(self).core.accounts() == old(self).core.accounts(),
            ({
                let (txs2, hist2, res) = spec_record(
                    old(self).core.ledger.txs(),
                    old(self).core.ledger.dhist(),
                    event,
                );
                &&& final(self).core.ledger.txs() == txs2
                &&& final(self).core.ledger.dhist() == hist2
                &&& match res {
                    Err(e) => r == Err::<(), DispatchError>(DispatchError::Rejected(e))
                        && final(self).queues() == old(self).queues(),
                    Ok(_) => ({
                        let idx = event.client as int % (WORKERS_COUNT as int);
                        if old(self).queues()[idx].len() < QUEUE_CAPACITY {
                            &&& r is Ok
                            &&& final(self).queues() == old(self).queues().update(
                                idx,
                                old(self).queues()[idx].push(event),
                            )
                        } else {
                            &&& r == Err::<(), DispatchError>(DispatchError::QueueFull)
                            &&& final(self).queues() == old(self).queues()
                        }
                    }),
                }
            }),
    {
        let ghost queues0 = self.queues();
        if let Err(rejection) = self.core.ledger.add_event(event) {
            return Err(DispatchError::Rejected(rejection));
        }
        let idx = (event.client as usize) % self.workers.len();
        let worker = &mut self.workers[idx];
        let pushed = worker.enqueue(event);
        proof {
            if queues0[idx as int].len() < QUEUE_CAPACITY {
                assert(self.queues() =~= queues0.update(
                    idx as int,
                    queues0[idx as int].push(event),
                ));
            } else {
                assert(self.queues() =~= queues0);
            }
        }
        match pushed {
            Ok(_) => Ok(()),
            Err(_) => Err(DispatchError::QueueFull),
        }
    }

    /// One scheduling step of the shard `idx`: pop its next event, if any,
    /// and apply it to the shared state.
    pub fn worker_step(&mut self, idx: usize) -> (processed: bool)
        requires
            old(self).wf(),
            idx < old(self).workers@.len(),
        ensures
            final(self).wf(),
            final(self).core.ledger == old(self).core.ledger,
            final(self).core.shutdown == old(self).core.shutdown,
            processed == (old(self).queues()[idx as int].len() > 0),
            !processed ==> final(self).queues() == old(self).queues() && final(self).core.accounts()
                == old(self).core.accounts(),
            processed ==> final(self).queues() == old(self).queues().update(
                idx as int,
                old(self).queues()[idx as int].subrange(
                    1,
                    old(self).queues()[idx as int].len() as int,
                ),
            ) && final(self).core.accounts() == spec_process(
                old(self).core.ledger.txs(),
                old(self).core.accounts(),
                old(self).queues()[idx as int][0],
            ),
    {
        let ghost queues0 = self.queues();
        let worker = &mut self.workers[idx];
        let processed = worker.step(&mut self.core);
        proof {
            if processed {
                assert(self.queues() =~= queues0.update(
                    idx as int,
                    queues0[idx as int].subrange(1, queues0[idx as int].len() as int),
                ));
            } else {
                assert(self.queues() =~= queues0);
            }
        }
        processed
    }

    /// Signal shutdown, then drain: every queued event is still processed,
    /// shard by shard, each shard in FIFO order; only then does shutdown
    /// return. No queued event is ever discarded.
    pub fn shutdown(&mut self)
        requires
            old(self).wf(),
        ensures
            final(self).wf(),
            final(self).core.shutdown,
            final(self).core.ledger == old(self).core.ledger,
            forall|i: int|
                0 <= i < final(self).queues().len() ==> #[trigger] final(self).queues()[i].len()
                    == 0,
            final(self).core.accounts() == spec_process_queues(
                old(self).core.ledger.txs(),
                old(self).core.accounts(),
                old(self).queues(),
            ),
    {
        self.core.shutdown = true;
        let ghost txs0 = self.core.ledger.txs();
        let ghost chart0 = self.core.accounts();
        let ghost queues0 = self.queues();
        let ghost ledger0 = self.core.ledger;
        proof {
            assert(queues0.subrange(0, queues0.len() as int) =~= queues0);
        }
        let mut i: usize = 0;
        while i < self.workers.len()
            invariant
                self.wf(),
                i <= self.workers@.len(),
                self.core.ledger == ledger0,
                self.core.shutdown,
                txs0 == ledger0.txs(),
                queues0.len() == self.workers@.len(),
                forall|j: int| 0 <= j < i ==> #[trigger] self.queues()[j].len() == 0,
                forall|j: int| i <= j < queues0.len() ==> #[trigger] self.queues()[j] == queues0[j],
                spec_process_queues(txs0, self.core.accounts(), queues0.subrange(
                    i as int,
                    queues0.len() as int,
                )) == spec_process_queues(txs0, chart0, queues0),
            decreases self.workers@.len() - i,
        {
            let ghost chart_before = self.core.accounts();
            let ghost queues_before = self.queues();
            let worker = &mut self.workers[i];
            worker.drain(&mut self.core);
            proof {
                let n = queues0.len() as int;
                let rest = queues0.subrange(i as int, n);
                assert(rest[0] == queues0[i as int]);
                assert(queues_before[i as int] == queues0[i as int]);
                assert(spec_process_queues(txs0, chart_before, rest) == spec_process_queues(
                    txs0,
                    spec_process_seq(txs0, chart_before, rest[0]),
                    rest.subrange(1, rest.len() as int),
                ));
                assert(rest.subrange(1, rest.len() as int) =~= queues0.subrange(i as int + 1, n));
                assert forall|j: int| 0 <= j < i + 1 implies #[trigger] self.queues()[j].len()
                    == 0 by {
                    if j < i {
                        assert(self.queues()[j] == queues_before[j]);
                    }
                }
                assert forall|j: int| i + 1 <= j < n implies #[trigger] self.queues()[j]
                    == queues0[j] by {
                    assert(self.queues()[j] == queues_before[j]);
                }
            }
            i = i + 1;
        }
        proof {
            assert(queues0.subrange(queues0.len() as int, queues0.len() as int).len() == 0);
        }
    }
}

} // verus!
