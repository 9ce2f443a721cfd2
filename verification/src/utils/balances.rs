use crate::bumps::{BALANCES_BUMP_CONSTANT, BALANCES_BUMP_CONSTANT_THRESHOLD};
use crate::ledger::{Lease, Ledger, LedgerView, Renewal};
use crate::storage::balances::{AccountId, BalancesDataKeys};
use vstd::prelude::*;

verus! {

broadcast use vstd::std_specs::hash::group_hash_axioms;

/// The renewal that keeps the balance of `id` alive.
pub open spec fn balance_renewal(id: AccountId) -> Renewal {
    Renewal {
        lease: Lease::Balance(BalancesDataKeys::Balance(id)),
        threshold: BALANCES_BUMP_CONSTANT_THRESHOLD,
        extend_to: BALANCES_BUMP_CONSTANT,
    }
}

impl LedgerView {
    /// How many items an account owns. An account without a record owns
    /// none.
    pub open spec fn balance_of(self, address: AccountId) -> u128 {
        if self.balances.contains_key(address) {
            self.balances[address]
        } else {
            0
        }
    }

    /// This ledger after the balance of `address` was overwritten.
    pub open spec fn with_balance(self, address: AccountId, balance: u128) -> LedgerView {
        LedgerView { balances: self.balances.insert(address, balance), ..self }
    }

    /// This ledger after the lease of the balance of `id` was renewed,
    /// which asks for nothing where the account has no record.
    pub open spec fn bump_balance(self, id: AccountId) -> LedgerView {
        if self.balances.contains_key(id) {
            self.renewing(balance_renewal(id))
        } else {
            self
        }
    }
}

/// Renews the lease of an account's balance, if it has a record.
pub fn bump_balance(env: &mut Ledger, id: &AccountId)
    ensures
        final(env)@ == old(env)@.bump_balance(*id),
{
    if env.balances.contains_key(id) {
        env.extend_ttl(
            Lease::Balance(BalancesDataKeys::Balance(*id)),
            BALANCES_BUMP_CONSTANT_THRESHOLD,
            BALANCES_BUMP_CONSTANT,
        );
    }
}

/// Overwrites the balance of an account.
pub fn write_balance(env: &mut Ledger, address: &AccountId, balance: &u128)
    ensures
        final(env)@ == old(env)@.with_balance(*address, *balance),
{
    env.balances.insert(*address, *balance);
}

/// The balance of an account: 0 where it has no record.
pub fn get_balance(env: &Ledger, address: &AccountId) -> (balance: u128)
    ensures
        balance == env@.balance_of(*address),
{
    match env.balances.get(address) {
        Some(balance) => *balance,
        None => 0u128,
    }
}

} // verus!
