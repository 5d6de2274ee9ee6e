//! The business-rule layer: translate one event into at most one account
//! mutation, reading amounts back from the ledger rather than trusting the
//! live event.
//!
//! Business rules, stated by `spec_apply_to_account` and `spec_process`:
//! - a deposit adds the recorded amount to `available`;
//! - a withdrawal subtracts it, but only when the account is not locked and
//!   has sufficient available funds — otherwise the event is a silent no-op;
//! - dispute, resolve and chargeback act only on recorded *withdrawal*
//!   transactions (a dispute of a deposit is a deliberate no-op) and move the
//!   recorded amount between `held` and `available`, a chargeback locking the
//!   account for good;
//! - an operation whose arithmetic result would not fit the fixed-point
//!   representation leaves the account unchanged;
//! - a deposit or withdrawal event creates the client's account on first
//!   sight; a dispute-family event only does so when its transaction lookup
//!   succeeds.

use vstd::prelude::*;

use crate::account::Account;
use crate::engine::{chart_get, chart_insert, EngineCore};
use crate::event::{Event, EventType};
use crate::ledger::{spec_fetch, Transaction};

verus! {

/// Whether a mathematical amount fits the fixed-point representation.
pub open spec fn fits_i64(x: int) -> bool {
    i64::MIN <= x <= i64::MAX
}

/// The amount recorded for `(id, client)`, whatever the transaction's kind.
pub open spec fn tx_amount_for(txs: Map<u32, Transaction>, id: u32, client: u16) -> Option<i64> {
    match spec_fetch(txs, id, client) {
        Some(t) => Some(t.spec_amount()),
        None => None,
    }
}

/// The amount recorded for `(id, client)`, restricted to withdrawals: only
/// withdrawals are disputable.
pub open spec fn withdrawal_amount_for(txs: Map<u32, Transaction>, id: u32, client: u16) -> Option<
    i64,
> {
    match spec_fetch(txs, id, client) {
        Some(Transaction::Withdrawal { amount, .. }) => Some(amount),
        _ => None,
    }
}

/// The client's account, or a fresh one when the chart has none yet.
pub open spec fn account_or_new(chart: Map<u16, Account>, client: u16) -> Account {
    if chart.dom().contains(client) {
        chart[client]
    } else {
        Account { id: client, available: 0, held: 0, locked: false }
    }
}

/// How one event transforms one account, the ledger supplying the amounts.
pub open spec fn spec_apply_to_account(txs: Map<u32, Transaction>, acc: Account, e: Event) -> Account {
    match e.tx_type {
        EventType::Deposit => match tx_amount_for(txs, e.tx, e.client) {
            Some(a) => if fits_i64(acc.available + a) {
                Account { available: (acc.available + a) as i64, ..acc }
            } else {
                acc
            },
            None => acc,
        },
        EventType::Withdrawal => match tx_amount_for(txs, e.tx, e.client) {
            Some(a) => if !acc.locked && acc.available >= a {
                Account { available: (acc.available - a) as i64, ..acc }
            } else {
                acc
            },
            None => acc,
        },
        EventType::Dispute => match withdrawal_amount_for(txs, e.tx, e.client) {
            Some(a) => if fits_i64(acc.held + a) {
                Account { held: (acc.held + a) as i64, ..acc }
            } else {
                acc
            },
            None => acc,
        },
        EventType::Resolve => match withdrawal_amount_for(txs, e.tx, e.client) {
            Some(a) => if fits_i64(acc.held - a) && fits_i64(acc.available + a) {
                Account {
                    held: (acc.held - a) as i64,
                    available: (acc.available + a) as i64,
                    ..acc
                }
            } else {
                acc
            },
            None => acc,
        },
        EventType::Chargeback => match withdrawal_amount_for(txs, e.tx, e.client) {
            Some(a) => if fits_i64(acc.held - a) {
                Account { held: (acc.held - a) as i64, locked: true, ..acc }
            } else {
                acc
            },
            None => acc,
        },
    }
}

/// How one event transforms the whole account chart. A deposit or withdrawal
/// event creates the client's account even when its transaction lookup
/// fails; a dispute-family event touches the chart only when its (withdrawal)
/// transaction is found.
pub open spec fn spec_process(txs: Map<u32, Transaction>, chart: Map<u16, Account>, e: Event) -> Map<
    u16,
    Account,
> {
    match e.tx_type {
        EventType::Deposit | EventType::Withdrawal => chart.insert(
            e.client,
            spec_apply_to_account(txs, account_or_new(chart, e.client), e),
        ),
        _ => {
            if withdrawal_amount_for(txs, e.tx, e.client) is Some {
                chart.insert(e.client, spec_apply_to_account(txs, account_or_new(chart, e.client), e))
            } else {
                chart
            }
        },
    }
}

/// A sequence of events applied in order, front first.
pub open spec fn spec_process_seq(
    txs: Map<u32, Transaction>,
    chart: Map<u16, Account>,
    events: Seq<Event>,
) -> Map<u16, Account>
    decreases events.len(),
{
    if events.len() == 0 {
        chart
    } else {
        spec_process_seq(
            txs,
            spec_process(txs, chart, events[0]),
            events.subrange(1, events.len() as int),
        )
    }
}

/// The queues of all shards drained in order, each in FIFO order.
pub open spec fn spec_process_queues(
    txs: Map<u32, Transaction>,
    chart: Map<u16, Account>,
    queues: Seq<Seq<Event>>,
) -> Map<u16, Account>
    decreases queues.len(),
{
    if queues.len() == 0 {
        chart
    } else {
        spec_process_queues(
            txs,
            spec_process_seq(txs, chart, queues[0]),
            queues.subrange(1, queues.len() as int),
        )
    }
}

/// The queues flattened into one stream, shard by shard.
pub open spec fn concat_queues(queues: Seq<Seq<Event>>) -> Seq<Event>
    decreases queues.len(),
{
    if queues.len() == 0 {
        Seq::empty()
    } else {
        queues[0] + concat_queues(queues.subrange(1, queues.len() as int))
    }
}

/// Processing a concatenation is processing its halves in turn.
pub proof fn lemma_process_seq_append(
    txs: Map<u32, Transaction>,
    chart: Map<u16, Account>,
    first: Seq<Event>,
    second: Seq<Event>,
)
    ensures
        spec_process_seq(txs, chart, first + second) == spec_process_seq(
            txs,
            spec_process_seq(txs, chart, first),
            second,
        ),
    decreases first.len(),
{
    if first.len() == 0 {
        assert(first + second =~= second);
    } else {
        assert((first + second)[0] == first[0]);
        let rest = first.subrange(1, first.len() as int);
        assert((first + second).subrange(1, (first + second).len() as int) =~= rest + second);
        lemma_process_seq_append(txs, spec_process(txs, chart, first[0]), rest, second);
    }
}

/// Law: draining the shard queues one after another, each in FIFO order, is
/// the same as processing the concatenation of all queues as one stream —
/// the shape `lemma_per_client_order` then reduces to each client's own
/// subsequence.
pub proof fn lemma_drain_is_flat_stream(
    txs: Map<u32, Transaction>,
    chart: Map<u16, Account>,
    queues: Seq<Seq<Event>>,
)
    ensures
        spec_process_queues(txs, chart, queues) == spec_process_seq(
            txs,
            chart,
            concat_queues(queues),
        ),
    decreases queues.len(),
{
    if queues.len() > 0 {
        let rest = queues.subrange(1, queues.len() as int);
        lemma_drain_is_flat_stream(txs, spec_process_seq(txs, chart, queues[0]), rest);
        lemma_process_seq_append(txs, chart, queues[0], concat_queues(rest));
    }
}

/// Look up the client's account, or create it, mirroring `account_or_new`.
fn load_account(core: &EngineCore, client: u16) -> (acc: Account)
    ensures
        acc == account_or_new(core.accounts(), client),
{
    match chart_get(&core.chart, client) {
        Some(acc) => acc,
        None => Account::new(client),
    }
}

/// The amount recorded for the event's `(tx, client)`, whatever its kind.
fn get_transaction_amount(core: &EngineCore, event: &Event) -> (r: Option<i64>)
    ensures
        r == tx_amount_for(core.ledger.txs(), event.tx, event.client),
{
    match core.ledger.fetch_transaction(event.tx, event.client) {
        Some(t) => Some(t.amount()),
        None => None,
    }
}

/// The amount recorded for the event's `(tx, client)`, withdrawals only.
fn get_dispute_amount(core: &EngineCore, event: &Event) -> (r: Option<i64>)
    ensures
        r == withdrawal_amount_for(core.ledger.txs(), event.tx, event.client),
{
    match core.ledger.fetch_transaction(event.tx, event.client) {
        Some(Transaction::Withdrawal { amount, client: _ }) => Some(amount),
        _ => None,
    }
}

/// Apply one event to the shared state: exactly the `spec_process` step.
pub(crate) fn apply_event(core: &mut EngineCore, event: &Event)
    requires
        old(core).wf(),
    ensures
        final(core).wf(),
        final(core).ledger == old(core).ledger,
        final(core).shutdown == old(core).shutdown,
        final(core).accounts() == spec_process(
            old(core).ledger.txs(),
            old(core).accounts(),
            *event,
        ),
{
    match event.tx_type {
        EventType::Deposit => handle_deposit(core, event),
        EventType::Withdrawal => handle_withdrawal(core, event),
        EventType::Dispute => handle_dispute(core, event),
        EventType::Resolve => handle_resolve(core, event),
        EventType::Chargeback => handle_chargeback(core, event),
    }
}

fn handle_deposit(core: &mut EngineCore, event: &Event)
    requires
        old(core).wf(),
        event.tx_type == EventType::Deposit,
    ensures
        final(core).wf(),
        final(core).ledger == old(core).ledger,
        final(core).shutdown == old(core).shutdown,
        final(core).accounts() == spec_process(
            old(core).ledger.txs(),
            old(core).accounts(),
            *event,
        ),
{
    let mut account = load_account(core, event.client);
    if let Some(amount) = get_transaction_amount(core, event) {
        if account.available() <= i64::MAX - amount {
            account.deposit(amount);
        }
    }
    chart_insert(&mut core.chart, event.client, account);
}

fn handle_withdrawal(core: &mut EngineCore, event: &Event)
    requires
        old(core).wf(),
        event.tx_type == EventType::Withdrawal,
    ensures
        final(core).wf(),
        final(core).ledger == old(core).ledger,
        final(core).shutdown == old(core).shutdown,
        final(core).accounts() == spec_process(
            old(core).ledger.txs(),
            old(core).accounts(),
            *event,
        ),
{
    let mut account = load_account(core, event.client);
    if let Some(amount) = get_transaction_amount(core, event) {
        if !account.locked() && account.available() >= amount {
            account.withdraw(amount);
        }
    }
    chart_insert(&mut core.chart, event.client, account);
}

fn handle_dispute(core: &mut EngineCore, event: &Event)
    requires
        old(core).wf(),
        event.tx_type == EventType::Dispute,
    ensures
        final(core).wf(),
        final(core).ledger == old(core).ledger,
        final(core).shutdown == old(core).shutdown,
        final(core).accounts() == spec_process(
            old(core).ledger.txs(),
            old(core).accounts(),
            *event,
        ),
{
    if let Some(amount) = get_dispute_amount(core, event) {
        let mut account = load_account(core, event.client);
        if account.held() <= i64::MAX - amount {
            account.hold(amount);
        }
        chart_insert(&mut core.chart, event.client, account);
    }
}

fn handle_resolve(core: &mut EngineCore, event: &Event)
    requires
        old(core).wf(),
        event.tx_type == EventType::Resolve,
    ensures
        final(core).wf(),
        final(core).ledger == old(core).ledger,
        final(core).shutdown == old(core).shutdown,
        final(core).accounts() == spec_process(
            old(core).ledger.txs(),
            old(core).accounts(),
            *event,
        ),
{
    if let Some(amount) = get_dispute_amount(core, event) {
        let mut account = load_account(core, event.client);
        if account.held() >= i64::MIN + amount && account.available() <= i64::MAX - amount {
            account.resolve(amount);
        }
        chart_insert(&mut core.chart, event.client, account);
    }
}

fn handle_chargeback(core: &mut EngineCore, event: &Event)
    requires
        old(core).wf(),
        event.tx_type == EventType::Chargeback,
    ensures
        final(core).wf(),
        final(core).ledger == old(core).ledger,
        final(core).shutdown == old(core).shutdown,
        final(core).accounts() == spec_process(
            old(core).ledger.txs(),
            old(core).accounts(),
            *event,
        ),
{
    if let Some(amount) = get_dispute_amount(core, event) {
        let mut account = load_account(core, event.client);
        if account.held() >= i64::MIN + amount {
            account.reject(amount);
        }
        chart_insert(&mut core.chart, event.client, account);
    }
}

/// The client's account in the chart, if the chart knows the client.
pub open spec fn client_account(chart: Map<u16, Account>, client: u16) -> Option<Account> {
    if chart.dom().contains(client) {
        Some(chart[client])
    } else {
        None
    }
}

/// The subsequence of `events` that concerns `client`, in the same order.
pub open spec fn spec_client_events(events: Seq<Event>, client: u16) -> Seq<Event>
    decreases events.len(),
{
    if events.len() == 0 {
        Seq::empty()
    } else {
        let rest = spec_client_events(events.subrange(1, events.len() as int), client);
        if events[0].client == client {
            seq![events[0]] + rest
        } else {
            rest
        }
    }
}

/// Law: a locked account rejects every subsequent withdrawal, whatever its
/// available balance, but still accepts deposits.
pub proof fn lemma_locked_account(txs: Map<u32, Transaction>, chart: Map<u16, Account>, e: Event)
    requires
        chart.dom().contains(e.client),
        chart[e.client].locked,
    ensures
        e.tx_type == EventType::Withdrawal ==> spec_process(txs, chart, e) == chart,
        e.tx_type == EventType::Deposit ==> (match tx_amount_for(txs, e.tx, e.client) {
            Some(a) => {
                if fits_i64(chart[e.client].available + a) {
                    spec_process(txs, chart, e)[e.client].available == chart[e.client].available
                        + a
                } else {
                    spec_process(txs, chart, e) == chart
                }
            },
            None => spec_process(txs, chart, e) == chart,
        }),
{
    if e.tx_type == EventType::Withdrawal {
        assert(spec_process(txs, chart, e) =~= chart);
    }
    if e.tx_type == EventType::Deposit {
        match tx_amount_for(txs, e.tx, e.client) {
            Some(a) => {
                if !fits_i64(chart[e.client].available + a) {
                    assert(spec_process(txs, chart, e) =~= chart);
                }
            },
            None => {
                assert(spec_process(txs, chart, e) =~= chart);
            },
        }
    }
}

/// Processing an event leaves every other client's account untouched.
pub proof fn lemma_process_localized(
    txs: Map<u32, Transaction>,
    chart: Map<u16, Account>,
    e: Event,
    client: u16,
)
    requires
        client != e.client,
    ensures
        client_account(spec_process(txs, chart, e), client) == client_account(chart, client),
{
}

/// Every element of `spec_client_events(events, client)` concerns `client`.
proof fn lemma_client_events_all_client(events: Seq<Event>, client: u16)
    ensures
        forall|i: int|
            0 <= i < spec_client_events(events, client).len() ==> (#[trigger] spec_client_events(
                events,
                client,
            )[i]).client == client,
    decreases events.len(),
{
    if events.len() > 0 {
        let rest = events.subrange(1, events.len() as int);
        lemma_client_events_all_client(rest, client);
        let filtered = spec_client_events(events, client);
        assert forall|i: int| 0 <= i < filtered.len() implies (#[trigger] filtered[i]).client
            == client by {
            if events[0].client == client {
                if i > 0 {
                    assert(filtered[i] == spec_client_events(rest, client)[i - 1]);
                }
            } else {
                assert(filtered[i] == spec_client_events(rest, client)[i]);
            }
        }
    }
}

/// Charts that agree on one client keep agreeing on that client under any
/// sequence of that client's events.
proof fn lemma_process_seq_agreement(
    txs: Map<u32, Transaction>,
    chart1: Map<u16, Account>,
    chart2: Map<u16, Account>,
    events: Seq<Event>,
    client: u16,
)
    requires
        client_account(chart1, client) == client_account(chart2, client),
        forall|i: int| 0 <= i < events.len() ==> (#[trigger] events[i]).client == client,
    ensures
        client_account(spec_process_seq(txs, chart1, events), client) == client_account(
            spec_process_seq(txs, chart2, events),
            client,
        ),
    decreases events.len(),
{
    if events.len() > 0 {
        let e = events[0];
        assert(e.client == client);
        assert(account_or_new(chart1, client) == account_or_new(chart2, client));
        assert(client_account(spec_process(txs, chart1, e), client) == client_account(
            spec_process(txs, chart2, e),
            client,
        ));
        let rest = events.subrange(1, events.len() as int);
        assert(forall|i: int| 0 <= i < rest.len() ==> (#[trigger] rest[i]).client == client);
        lemma_process_seq_agreement(
            txs,
            spec_process(txs, chart1, e),
            spec_process(txs, chart2, e),
            rest,
            client,
        );
    }
}

/// Law: events of one client are applied to that client's account in
/// submission order, and other clients' events have no effect on it. The
/// account a client ends with after a whole stream is the account it ends
/// with after just its own subsequence, in the same order. (Sharding by
/// `client_id mod WORKERS_COUNT` keeps one client's events on one FIFO
/// queue, so this order is the submission order however many workers run.)
pub proof fn lemma_per_client_order(
    txs: Map<u32, Transaction>,
    chart: Map<u16, Account>,
    events: Seq<Event>,
    client: u16,
)
    ensures
        client_account(spec_process_seq(txs, chart, events), client) == client_account(
            spec_process_seq(txs, chart, spec_client_events(events, client)),
            client,
        ),
    decreases events.len(),
{
    if events.len() > 0 {
        let e = events[0];
        let rest = events.subrange(1, events.len() as int);
        let chart_after = spec_process(txs, chart, e);
        lemma_per_client_order(txs, chart_after, rest, client);
        if e.client == client {
            let filtered = spec_client_events(events, client);
            assert(filtered == seq![e] + spec_client_events(rest, client));
            assert(filtered[0] == e);
            assert(filtered.subrange(1, filtered.len() as int) =~= spec_client_events(
                rest,
                client,
            ));
        } else {
            lemma_process_localized(txs, chart, e, client);
            lemma_client_events_all_client(rest, client);
            lemma_process_seq_agreement(
                txs,
                chart_after,
                chart,
                spec_client_events(rest, client),
                client,
            );
            assert(spec_client_events(events, client) == spec_client_events(rest, client));
        }
    }
}

/// The pure business-rule layer around the shared engine state.
pub struct EventProcessor {
    pub core: EngineCore,
}

impl EventProcessor {
    pub fn new(core: EngineCore) -> (p: EventProcessor)
        ensures
            p.core == core,
    {
        EventProcessor { core }
    }

    /// Apply one event to the account chart: the `spec_process` step.
    pub fn process(&mut self, event: &Event)
        requires
            old(self).core.wf(),
        ensures
            final(self).core.wf(),
            final(self).core.ledger == old(self).core.ledger,
            final(self).core.shutdown == old(self).core.shutdown,
            final(self).core.accounts() == spec_process(
                old(self).core.ledger.txs(),
                old(self).core.accounts(),
                *event,
            ),
    {
        apply_event(&mut self.core, event);
    }

    /// Whether the engine has signalled shutdown.
    pub fn is_shutdown(&self) -> (r: bool)
        ensures
            r == self.core.shutdown,
    {
        self.core.shutdown
    }
}

} // verus!
