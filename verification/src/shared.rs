//! Declarations of the concurrent container types from the outside crates
//! that the engine stores its shared state in. The types are opaque here;
//! each instantiation gets its contents named, and its operations specified,
//! in the module that owns it (ledger, engine, worker).

use vstd::prelude::*;

verus! {

/// dashmap's concurrent hash map, used for the transaction ledger, the
/// dispute histories and the account chart.
#[verifier::external_type_specification]
#[verifier::external_body]
#[verifier::reject_recursive_types(K)]
#[verifier::reject_recursive_types(V)]
#[verifier::reject_recursive_types(S)]
pub struct ExDashMap<K, V, S>(dashmap::DashMap<K, V, S>);

/// crossbeam's bounded queue, one per worker shard.
#[verifier::external_type_specification]
#[verifier::external_body]
#[verifier::reject_recursive_types(T)]
pub struct ExArrayQueue<T>(crossbeam::queue::ArrayQueue<T>);

} // verus!
