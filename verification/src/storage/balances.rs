use vstd::prelude::*;

verus! {

/// An account, by the number under which the host knows it.
pub type AccountId = u64;

#[derive(Copy, Clone, Debug, PartialEq, Eq, Structural)]
pub enum BalancesDataKeys {
    /// How many items of the collection an account owns.
    Balance(AccountId),
}

} // verus!
