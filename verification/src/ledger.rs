//! The transaction ledger: the record of every accepted deposit and
//! withdrawal, and the ordered dispute history of each transaction id.
//!
//! Both stores live in concurrent maps from the dashmap crate. The maps are
//! opaque to the verifier; their contents are named by the uninterpreted
//! views below, and every operation the ledger performs goes through a small
//! trusted wrapper whose contract states what dashmap's documentation
//! promises of that call.

use vstd::prelude::*;
use vstd::string::StringExecFns;

use crate::event::{Event, EventType};

verus! {

/// A recorded ledger entry: the money-moving half of the event stream.
/// `amount` is never negative once recorded.
#[derive(Debug, Clone, Copy, PartialEq, Eq)]
pub enum Transaction {
    Deposit { amount: i64, client: u16 },
    Withdrawal { amount: i64, client: u16 },
}

impl Transaction {
    pub open spec fn spec_client(self) -> u16 {
        match self {
            Transaction::Deposit { client, .. } => client,
            Transaction::Withdrawal { client, .. } => client,
        }
    }

    pub open spec fn spec_amount(self) -> i64 {
        match self {
            Transaction::Deposit { amount, .. } => amount,
            Transaction::Withdrawal { amount, .. } => amount,
        }
    }

    pub fn deposit(amount: i64, client: u16) -> (t: Transaction)
        ensures
            t == (Transaction::Deposit { amount, client }),
    {
        Transaction::Deposit { amount, client }
    }

    pub fn withdrawal(amount: i64, client: u16) -> (t: Transaction)
        ensures
            t == (Transaction::Withdrawal { amount, client }),
    {
        Transaction::Withdrawal { amount, client }
    }

    pub fn client(&self) -> (c: u16)
        ensures
            c == self.spec_client(),
    {
        match self {
            Transaction::Deposit { client, .. } => *client,
            Transaction::Withdrawal { client, .. } => *client,
        }
    }

    pub fn amount(&self) -> (a: i64)
        ensures
            a == self.spec_amount(),
    {
        match self {
            Transaction::Deposit { amount, .. } => *amount,
            Transaction::Withdrawal { amount, .. } => *amount,
        }
    }
}

/// One step of a transaction's dispute lifecycle. The last element of a
/// transaction's history is its current dispute state.
#[derive(Debug, Clone, Copy, PartialEq, Eq)]
pub enum DisputeEvent {
    Dispute,
    Chargeback,
    Resolve,
}

/// Why the ledger rejected an event. Every rejection leaves the ledger
/// exactly as it was.
#[derive(Debug, Clone, Copy, PartialEq, Eq)]
pub enum LedgerError {
    /// A deposit or withdrawal reused an already-recorded transaction id.
    DuplicateTransaction(u32),
    /// A deposit or withdrawal carried no usable (present, non-negative) amount.
    MissingAmount(u32),
    /// A dispute-family event named a transaction id that is not recorded,
    /// or is recorded for a different client.
    UnknownTransaction(u32, u16),
    /// A dispute-family event broke the dispute lifecycle.
    InvalidTransition(u32),
}

/// The decimal rendering of a `u32`, as produced by std's `Display`.
pub uninterp spec fn decimal_digits(n: u32) -> Seq<char>;

/// Relies on u32's std `Display` implementation; the rendering is a function
/// of the value alone.
#[verifier::external_body]
fn u32_digits_string(n: u32) -> (r: String)
    ensures
        r@ == decimal_digits(n),
{
    n.to_string()
}

impl LedgerError {
    pub open spec fn spec_message(self) -> Seq<char> {
        match self {
            LedgerError::DuplicateTransaction(id) => "Transaction with ID "@ + decimal_digits(
                id,
            ) + " already exists"@,
            LedgerError::MissingAmount(id) => "No amount for a transaction with ID "@
                + decimal_digits(id),
            LedgerError::UnknownTransaction(id, client) => "Can't find a transaction with ID "@
                + decimal_digits(id) + " for client "@ + decimal_digits(client as u32),
            LedgerError::InvalidTransition(_) => "Undefined transition"@,
        }
    }

    /// The human-readable description of the rejection.
    pub fn message(&self) -> (r: String)
        ensures
            r@ == self.spec_message(),
    {
        match self {
            LedgerError::DuplicateTransaction(id) => "Transaction with ID ".to_owned().concat(
                u32_digits_string(*id).as_str(),
            ).concat(" already exists"),
            LedgerError::MissingAmount(id) => "No amount for a transaction with ID "
                .to_owned().concat(u32_digits_string(*id).as_str()),
            LedgerError::UnknownTransaction(id, client) => "Can't find a transaction with ID "
                .to_owned().concat(u32_digits_string(*id).as_str()).concat(" for client ").concat(
                u32_digits_string(*client as u32).as_str(),
            ),
            LedgerError::InvalidTransition(_) => "Undefined transition".to_owned(),
        }
    }
}

/// What the transaction store holds: recorded transactions by id.
pub uninterp spec fn transactions_view(m: dashmap::DashMap<u32, Transaction>) -> Map<
    u32,
    Transaction,
>;

/// What the dispute store holds: each id's dispute history, oldest first.
pub uninterp spec fn disputes_view(m: dashmap::DashMap<u32, Vec<DisputeEvent>>) -> Map<
    u32,
    Seq<DisputeEvent>,
>;

/// Relies on dashmap::DashMap::new: a fresh map is empty.
#[verifier::external_body]
fn transactions_new() -> (m: dashmap::DashMap<u32, Transaction>)
    ensures
        forall|id: u32| !transactions_view(m).dom().contains(id),
{
    dashmap::DashMap::new()
}

/// Relies on dashmap::DashMap::get: returns the value stored under the key,
/// if any.
#[verifier::external_body]
fn transactions_get(m: &dashmap::DashMap<u32, Transaction>, id: u32) -> (r: Option<Transaction>)
    ensures
        r == (if transactions_view(*m).dom().contains(id) {
            Some(transactions_view(*m)[id])
        } else {
            None::<Transaction>
        }),
{
    m.get(&id).map(|t| *t.value())
}

/// Relies on dashmap's entry API: `Entry::Occupied`/`Entry::Vacant` say
/// whether the key is present, and `VacantEntry::insert` stores the value
/// under the key.
#[verifier::external_body]
fn transactions_insert_new(
    m: &mut dashmap::DashMap<u32, Transaction>,
    id: u32,
    t: Transaction,
) -> (inserted: bool)
    ensures
        inserted == !transactions_view(*old(m)).dom().contains(id),
        transactions_view(*final(m)) == (if inserted {
            transactions_view(*old(m)).insert(id, t)
        } else {
            transactions_view(*old(m))
        }),
{
    match m.entry(id) {
        dashmap::mapref::entry::Entry::Occupied(_) => false,
        dashmap::mapref::entry::Entry::Vacant(entry) => {
            entry.insert(t);
            true
        },
    }
}

/// Relies on dashmap::DashMap::len: the number of stored keys.
#[verifier::external_body]
fn transactions_len(m: &dashmap::DashMap<u32, Transaction>) -> (n: usize)
    ensures
        n == transactions_view(*m).dom().len(),
{
    m.len()
}

/// Relies on dashmap::DashMap::new: a fresh map is empty.
#[verifier::external_body]
fn disputes_new() -> (m: dashmap::DashMap<u32, Vec<DisputeEvent>>)
    ensures
        forall|id: u32| !disputes_view(m).dom().contains(id),
{
    dashmap::DashMap::new()
}

/// Relies on dashmap::DashMap::get and Vec::clone: returns a copy of the
/// history stored under the key, if any.
#[verifier::external_body]
fn disputes_get(m: &dashmap::DashMap<u32, Vec<DisputeEvent>>, id: u32) -> (r: Option<
    Vec<DisputeEvent>,
>)
    ensures
        r is Some <==> disputes_view(*m).dom().contains(id),
        r matches Some(v) ==> v@ == disputes_view(*m)[id],
{
    m.get(&id).map(|v| v.value().clone())
}

/// Relies on dashmap's entry API (`Entry::or_default`) and Vec::push:
/// appends one element to the history stored under the key, starting from
/// the empty history when the key is absent.
#[verifier::external_body]
fn disputes_push(m: &mut dashmap::DashMap<u32, Vec<DisputeEvent>>, id: u32, ev: DisputeEvent)
    ensures
        disputes_view(*final(m)) == disputes_view(*old(m)).insert(
            id,
            (if disputes_view(*old(m)).dom().contains(id) {
                disputes_view(*old(m))[id]
            } else {
                Seq::<DisputeEvent>::empty()
            }).push(ev),
        ),
{
    m.entry(id).or_default().push(ev);
}

/// Relies on dashmap::DashMap::len: the number of stored keys.
#[verifier::external_body]
fn disputes_len(m: &dashmap::DashMap<u32, Vec<DisputeEvent>>) -> (n: usize)
    ensures
        n == disputes_view(*m).dom().len(),
{
    m.len()
}

/// The requested dispute step for a dispute-family event kind.
pub open spec fn spec_requested(t: EventType) -> DisputeEvent {
    match t {
        EventType::Resolve => DisputeEvent::Resolve,
        EventType::Chargeback => DisputeEvent::Chargeback,
        _ => DisputeEvent::Dispute,
    }
}

/// The current dispute state of `id`: the last element of its history.
pub open spec fn spec_last_dispute(hist: Map<u32, Seq<DisputeEvent>>, id: u32) -> Option<
    DisputeEvent,
> {
    if hist.dom().contains(id) && hist[id].len() > 0 {
        Some(hist[id].last())
    } else {
        None
    }
}

/// The dispute lifecycle: a history may only grow as
/// none -> Dispute -> (Chargeback | Resolve).
pub open spec fn spec_valid_transition(previous: Option<DisputeEvent>, next: DisputeEvent) -> bool {
    match (previous, next) {
        (Some(DisputeEvent::Dispute), DisputeEvent::Chargeback) => true,
        (Some(DisputeEvent::Dispute), DisputeEvent::Resolve) => true,
        (None, DisputeEvent::Dispute) => true,
        _ => false,
    }
}

/// The transaction recorded for `id`, but only when its recorded client is
/// `client` — the authorization check that stops cross-client disputes.
pub open spec fn spec_fetch(txs: Map<u32, Transaction>, id: u32, client: u16) -> Option<
    Transaction,
> {
    if txs.dom().contains(id) && txs[id].spec_client() == client {
        Some(txs[id])
    } else {
        None
    }
}

/// What `Ledger::add_event` does, stated over the two views: the new
/// transaction store, the new dispute store, and the result.
pub open spec fn spec_record(
    txs: Map<u32, Transaction>,
    hist: Map<u32, Seq<DisputeEvent>>,
    e: Event,
) -> (Map<u32, Transaction>, Map<u32, Seq<DisputeEvent>>, Result<(), LedgerError>) {
    match e.tx_type {
        EventType::Deposit | EventType::Withdrawal => {
            if txs.dom().contains(e.tx) {
                (txs, hist, Err(LedgerError::DuplicateTransaction(e.tx)))
            } else {
                match e.amount {
                    None => (txs, hist, Err(LedgerError::MissingAmount(e.tx))),
                    Some(a) => {
                        if a < 0 {
                            (txs, hist, Err(LedgerError::MissingAmount(e.tx)))
                        } else {
                            let t = if e.tx_type == EventType::Deposit {
                                Transaction::Deposit { amount: a, client: e.client }
                            } else {
                                Transaction::Withdrawal { amount: a, client: e.client }
                            };
                            (txs.insert(e.tx, t), hist, Ok(()))
                        }
                    },
                }
            }
        },
        _ => {
            if spec_fetch(txs, e.tx, e.client) is None {
                (txs, hist, Err(LedgerError::UnknownTransaction(e.tx, e.client)))
            } else {
                let requested = spec_requested(e.tx_type);
                if !spec_valid_transition(spec_last_dispute(hist, e.tx), requested) {
                    (txs, hist, Err(LedgerError::InvalidTransition(e.tx)))
                } else {
                    let prior = if hist.dom().contains(e.tx) {
                        hist[e.tx]
                    } else {
                        Seq::<DisputeEvent>::empty()
                    };
                    (txs, hist.insert(e.tx, prior.push(requested)), Ok(()))
                }
            }
        },
    }
}

/// Law: the dispute lifecycle admits exactly three transitions. A fresh
/// transaction can only enter `Dispute`; a disputed one can only move to
/// `Chargeback` or `Resolve`; nothing follows a `Chargeback` or a `Resolve`,
/// and a dispute cannot be disputed again. (`spec_record` shows that every
/// rejected transition leaves the history unchanged.)
pub proof fn lemma_dispute_lifecycle()
    ensures
        spec_valid_transition(None, DisputeEvent::Dispute),
        !spec_valid_transition(None, DisputeEvent::Resolve),
        !spec_valid_transition(None, DisputeEvent::Chargeback),
        spec_valid_transition(Some(DisputeEvent::Dispute), DisputeEvent::Chargeback),
        spec_valid_transition(Some(DisputeEvent::Dispute), DisputeEvent::Resolve),
        !spec_valid_transition(Some(DisputeEvent::Dispute), DisputeEvent::Dispute),
        forall|next: DisputeEvent| !spec_valid_transition(Some(DisputeEvent::Resolve), next),
        forall|next: DisputeEvent| !spec_valid_transition(Some(DisputeEvent::Chargeback), next),
{
}

/// Law: a transaction id is the subject of at most one recorded transaction.
/// A deposit or withdrawal reusing a recorded id always fails with
/// `DuplicateTransaction` and leaves both stores untouched.
pub proof fn lemma_duplicate_rejected(
    txs: Map<u32, Transaction>,
    hist: Map<u32, Seq<DisputeEvent>>,
    e: Event,
)
    requires
        e.tx_type == EventType::Deposit || e.tx_type == EventType::Withdrawal,
        txs.dom().contains(e.tx),
    ensures
        spec_record(txs, hist, e).0 == txs,
        spec_record(txs, hist, e).1 == hist,
        spec_record(txs, hist, e).2 == Err::<(), LedgerError>(
            LedgerError::DuplicateTransaction(e.tx),
        ),
{
}

/// The store of recorded transactions and dispute histories, keyed by
/// transaction id. Append-only: a recorded transaction is never mutated or
/// removed, and a history only grows.
#[derive(Debug)]
pub struct Ledger {
    pub transactions: dashmap::DashMap<u32, Transaction>,
    pub disputes: dashmap::DashMap<u32, Vec<DisputeEvent>>,
}

impl Default for Ledger {
    fn default() -> (l: Ledger)
        ensures
            l.txs() == Map::<u32, Transaction>::empty(),
            l.dhist() == Map::<u32, Seq<DisputeEvent>>::empty(),
            l.wf(),
    {
        let l = Ledger { transactions: transactions_new(), disputes: disputes_new() };
        proof {
            assert(l.txs().dom() =~= Set::<u32>::empty());
            assert(l.dhist().dom() =~= Set::<u32>::empty());
            assert(l.txs() =~= Map::<u32, Transaction>::empty());
            assert(l.dhist() =~= Map::<u32, Seq<DisputeEvent>>::empty());
        }
        l
    }
}

impl Ledger {
    /// The recorded transactions, by id.
    pub open spec fn txs(self) -> Map<u32, Transaction> {
        transactions_view(self.transactions)
    }

    /// The dispute histories, by id.
    pub open spec fn dhist(self) -> Map<u32, Seq<DisputeEvent>> {
        disputes_view(self.disputes)
    }

    /// Every recorded amount is non-negative, and both stores are finite.
    pub open spec fn wf(self) -> bool {
        &&& self.txs().dom().finite()
        &&& self.dhist().dom().finite()
        &&& forall|id: u32|
            #[trigger] self.txs().dom().contains(id) ==> self.txs()[id].spec_amount() >= 0
    }

    /// Record one event.
    ///
    /// A deposit or withdrawal is stored under its transaction id iff the id
    /// is fresh and the amount is present and non-negative. A dispute-family
    /// event must name a transaction recorded for the same client and make a
    /// legal dispute transition; it is then appended to that id's history.
    /// On any rejection the ledger is left unchanged.
    pub fn add_event(&mut self, event: Event) -> (r: Result<(), LedgerError>)
        requires
            old(self).wf(),
        ensures
            final(self).wf(),
            ({
                let (txs2, hist2, res) = spec_record(old(self).txs(), old(self).dhist(), event);
                final(self).txs() == txs2 && final(self).dhist() == hist2 && r == res
            }),
    {
        let id = event.tx;
        let client = event.client;
        match event.tx_type {
            EventType::Deposit | EventType::Withdrawal => {
                if transactions_get(&self.transactions, id).is_some() {
                    return Err(LedgerError::DuplicateTransaction(id));
                }
                let amount = match event.amount {
                    None => {
                        return Err(LedgerError::MissingAmount(id));
                    },
                    Some(a) => a,
                };
                if amount < 0 {
                    return Err(LedgerError::MissingAmount(id));
                }
                let transaction = match event.tx_type {
                    EventType::Deposit => Transaction::Deposit { amount, client },
                    _ => Transaction::Withdrawal { amount, client },
                };
                transactions_insert_new(&mut self.transactions, id, transaction);
                Ok(())
            },
            EventType::Dispute | EventType::Resolve | EventType::Chargeback => {
                if self.fetch_transaction(id, client).is_none() {
                    return Err(LedgerError::UnknownTransaction(id, client));
                }
                let dispute_event = match event.tx_type {
                    EventType::Resolve => DisputeEvent::Resolve,
                    EventType::Chargeback => DisputeEvent::Chargeback,
                    _ => DisputeEvent::Dispute,
                };
                let previous_event = match disputes_get(&self.disputes, id) {
                    None => None,
                    Some(v) => {
                        if v.len() == 0 {
                            None
                        } else {
                            Some(v[v.len() - 1])
                        }
                    },
                };
                if !self.is_valid_dispute_transition(previous_event, dispute_event) {
                    return Err(LedgerError::InvalidTransition(id));
                }
                disputes_push(&mut self.disputes, id, dispute_event);
                Ok(())
            },
        }
    }

    /// The transaction recorded under `id`, but only when it was recorded
    /// for `client`.
    pub fn fetch_transaction(&self, id: u32, client: u16) -> (r: Option<Transaction>)
        ensures
            r == spec_fetch(self.txs(), id, client),
    {
        match transactions_get(&self.transactions, id) {
            None => None,
            Some(t) => {
                if t.client() == client {
                    Some(t)
                } else {
                    None
                }
            },
        }
    }

    /// How many transactions and how many dispute histories are recorded.
    pub fn count(&self) -> (r: (usize, usize))
        ensures
            r.0 == self.txs().dom().len(),
            r.1 == self.dhist().dom().len(),
    {
        (transactions_len(&self.transactions), disputes_len(&self.disputes))
    }

    fn is_valid_dispute_transition(
        &self,
        previous: Option<DisputeEvent>,
        next: DisputeEvent,
    ) -> (r: bool)
        ensures
            r == spec_valid_transition(previous, next),
    {
        match (previous, next) {
            (Some(DisputeEvent::Dispute), DisputeEvent::Chargeback) => true,
            (Some(DisputeEvent::Dispute), DisputeEvent::Resolve) => true,
            (None, DisputeEvent::Dispute) => true,
            _ => false,
        }
    }
}

} // verus!
