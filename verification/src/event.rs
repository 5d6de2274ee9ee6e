//! The events that drive the engine.
//!
//! An event carries a kind, the client it concerns, a transaction id, and —
//! for deposits and withdrawals — an amount. Amounts are exact fixed-point
//! money: an `i64` count of minor units.

use vstd::prelude::*;

verus! {

/// The five kinds of event the engine accepts.
#[derive(Debug, Clone, Copy, PartialEq, Eq)]
pub enum EventType {
    Deposit,
    Withdrawal,
    Dispute,
    Resolve,
    Chargeback,
}

/// One event of the input stream. `amount` is meaningful only for
/// `Deposit` and `Withdrawal`; the dispute-family events carry none.
#[derive(Debug, Clone, Copy, PartialEq, Eq)]
pub struct Event {
    pub tx_type: EventType,
    pub client: u16,
    pub tx: u32,
    pub amount: Option<i64>,
}

impl Event {
    fn new(tx_type: EventType, client: u16, tx: u32, amount: Option<i64>) -> (e: Event)
        ensures
            e == (Event { tx_type, client, tx, amount }),
    {
        Event { tx_type, client, tx, amount }
    }

    pub fn deposit(client: u16, tx: u32, amount: i64) -> (e: Event)
        ensures
            e == (Event { tx_type: EventType::Deposit, client, tx, amount: Some(amount) }),
    {
        Self::new(EventType::Deposit, client, tx, Some(amount))
    }

    pub fn withdrawal(client: u16, tx: u32, amount: i64) -> (e: Event)
        ensures
            e == (Event { tx_type: EventType::Withdrawal, client, tx, amount: Some(amount) }),
    {
        Self::new(EventType::Withdrawal, client, tx, Some(amount))
    }

    pub fn dispute(client: u16, tx: u32) -> (e: Event)
        ensures
            e == (Event { tx_type: EventType::Dispute, client, tx, amount: None::<i64> }),
    {
        Self::new(EventType::Dispute, client, tx, None)
    }

    pub fn resolve(client: u16, tx: u32) -> (e: Event)
        ensures
            e == (Event { tx_type: EventType::Resolve, client, tx, amount: None::<i64> }),
    {
        Self::new(EventType::Resolve, client, tx, None)
    }

    pub fn chargeback(client: u16, tx: u32) -> (e: Event)
        ensures
            e == (Event { tx_type: EventType::Chargeback, client, tx, amount: None::<i64> }),
    {
        Self::new(EventType::Chargeback, client, tx, None)
    }
}

} // verus!
