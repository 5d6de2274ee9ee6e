//! A self-describing event record: the shape a tabular input row takes
//! before the engine turns it into an `Event`. Amounts are fixed-point
//! minor units, as everywhere in this crate.

use vstd::prelude::*;

verus! {

/// The five kinds of record the input stream carries.
#[derive(Debug, Clone, Copy, PartialEq, Eq)]
pub enum TransactionType {
    Deposit,
    Withdrawal,
    Dispute,
    Resolve,
    Chargeback,
}

/// One input record: kind, client, transaction id, and — for deposits and
/// withdrawals — an amount.
#[derive(Debug, Clone, Copy, PartialEq, Eq)]
pub struct Transaction {
    pub tx_type: TransactionType,
    pub client: u16,
    pub tx: u32,
    pub amount: Option<i64>,
}

impl Transaction {
    fn new(tx_type: TransactionType, client: u16, tx: u32, amount: Option<i64>) -> (t: Transaction)
        ensures
            t == (Transaction { tx_type, client, tx, amount }),
    {
        Transaction { tx_type, client, tx, amount }
    }

    pub fn deposit(client: u16, tx: u32, amount: i64) -> (t: Transaction)
        ensures
            t == (Transaction {
                tx_type: TransactionType::Deposit,
                client,
                tx,
                amount: Some(amount),
            }),
    {
        Self::new(TransactionType::Deposit, client, tx, Some(amount))
    }

    pub fn withdrawal(client: u16, tx: u32, amount: i64) -> (t: Transaction)
        ensures
            t == (Transaction {
                tx_type: TransactionType::Withdrawal,
                client,
                tx,
                amount: Some(amount),
            }),
    {
        Self::new(TransactionType::Withdrawal, client, tx, Some(amount))
    }

    pub fn dispute(client: u16, tx: u32) -> (t: Transaction)
        ensures
            t == (Transaction {
                tx_type: TransactionType::Dispute,
                client,
                tx,
                amount: None::<i64>,
            }),
    {
        Self::new(TransactionType::Dispute, client, tx, None)
    }

    pub fn resolve(client: u16, tx: u32) -> (t: Transaction)
        ensures
            t == (Transaction {
                tx_type: TransactionType::Resolve,
                client,
                tx,
                amount: None::<i64>,
            }),
    {
        Self::new(TransactionType::Resolve, client, tx, None)
    }

    pub fn chargeback(client: u16, tx: u32) -> (t: Transaction)
        ensures
            t == (Transaction {
                tx_type: TransactionType::Chargeback,
                client,
                tx,
                amount: None::<i64>,
            }),
    {
        Self::new(TransactionType::Chargeback, client, tx, None)
    }
}

} // verus!
