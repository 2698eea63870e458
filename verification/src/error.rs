use vstd::prelude::*;

verus! {

/// Why the store could not serve a call.
#[derive(Clone, Copy, Debug, PartialEq, Eq, Structural)]
pub enum StorageFailure {
    /// No contract is running, so there is no instance storage to work on.
    NoContract,
    /// What is stored under a key that the call reads is not of the kind
    /// that this ledger stores there.
    Unreadable,
    /// The counter holds the last number that it can hold.
    CounterExhausted,
}

} // verus!
