//! Per-client account balance state.
//!
//! Money is held as exact fixed-point amounts: an `i64` number of minor
//! units. The five mutation primitives are pure arithmetic on the balances;
//! none of them validates business preconditions (sufficient funds, lock
//! state) — those checks belong to the event processor.

use vstd::prelude::*;

verus! {

/// A client's balances: `available` funds, `held` funds frozen pending
/// dispute outcomes, and the permanent `locked` flag set by a chargeback.
/// The total balance is always derived as `available + held`; it is never
/// stored separately.
#[derive(Debug, Clone, Copy, PartialEq, Eq)]
pub struct Account {
    pub id: u16,
    pub available: i64,
    pub held: i64,
    pub locked: bool,
}

impl Account {
    /// A fresh account for `id`: zero balances, not locked.
    pub fn new(id: u16) -> (acc: Account)
        ensures
            acc == (Account { id, available: 0, held: 0, locked: false }),
    {
        Account { id, available: 0, held: 0, locked: false }
    }

    /// Freeze `amount` pending a dispute: `held += amount`.
    pub fn hold(&mut self, amount: i64)
        requires
            i64::MIN <= old(self).held + amount <= i64::MAX,
        ensures
            *final(self) == (Account { held: (old(self).held + amount) as i64, ..*old(self) }),
    {
        self.held = self.held + amount;
    }

    /// Dispute settled in the client's favor: `held -= amount; available += amount`.
    pub fn resolve(&mut self, amount: i64)
        requires
            i64::MIN <= old(self).held - amount <= i64::MAX,
            i64::MIN <= old(self).available + amount <= i64::MAX,
        ensures
            *final(self) == (Account {
                held: (old(self).held - amount) as i64,
                available: (old(self).available + amount) as i64,
                ..*old(self)
            }),
    {
        self.held = self.held - amount;
        self.available = self.available + amount;
    }

    /// Chargeback: `held -= amount` and the account is locked for good.
    pub fn reject(&mut self, amount: i64)
        requires
            i64::MIN <= old(self).held - amount <= i64::MAX,
        ensures
            *final(self) == (Account {
                held: (old(self).held - amount) as i64,
                locked: true,
                ..*old(self)
            }),
    {
        self.held = self.held - amount;
        self.lock();
    }

    /// `available += amount`.
    pub fn deposit(&mut self, amount: i64)
        requires
            i64::MIN <= old(self).available + amount <= i64::MAX,
        ensures
            *final(self) == (Account { available: (old(self).available + amount) as i64, ..*old(self) }),
    {
        self.available = self.available + amount;
    }

    /// `available -= amount`.
    pub fn withdraw(&mut self, amount: i64)
        requires
            i64::MIN <= old(self).available - amount <= i64::MAX,
        ensures
            *final(self) == (Account { available: (old(self).available - amount) as i64, ..*old(self) }),
    {
        self.available = self.available - amount;
    }

    pub fn available(&self) -> (r: i64)
        ensures
            r == self.available,
    {
        self.available
    }

    pub fn held(&self) -> (r: i64)
        ensures
            r == self.held,
    {
        self.held
    }

    pub fn locked(&self) -> (r: bool)
        ensures
            r == self.locked,
    {
        self.locked
    }

    /// The total balance is derived, never stored: `total == available + held`
    /// holds at every observation point by construction.
    pub fn total(&self) -> (r: i64)
        requires
            i64::MIN <= self.available + self.held <= i64::MAX,
        ensures
            r == self.available + self.held,
    {
        self.held + self.available
    }

    fn lock(&mut self)
        ensures
            *final(self) == (Account { locked: true, ..*old(self) }),
    {
        self.locked = true;
    }
}

} // verus!
