//! A payment processing engine: a stream of per-client financial events
//! (deposit, withdrawal, dispute, resolve, chargeback) is recorded in a
//! transaction ledger and applied to per-client account balances, with a
//! strict dispute lifecycle and exact fixed-point arithmetic for money.

use vstd::prelude::*;

pub mod account;
pub mod engine;
pub mod event;
pub mod ledger;
pub mod processor;
mod shared;
pub mod transaction;
pub mod worker;

pub use account::Account;

verus! {

/// How many worker shards the engine runs.
pub const WORKERS_COUNT: usize = 4;

/// The bound of each worker's event queue.
pub const QUEUE_CAPACITY: usize = 100;

} // verus!
