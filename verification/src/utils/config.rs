use crate::bumps::{INSTANCE_BUMP_CONSTANT, INSTANCE_BUMP_CONSTANT_THRESHOLD};
use crate::errors::SCErrors;
use crate::ledger::{Lease, Ledger, LedgerView, Renewal};
use crate::storage::balances::AccountId;
use crate::storage::config::{CoreData, CoreDataKeys, TokenMetadata};
use vstd::prelude::*;

verus! {

/// The renewal that keeps the configuration alive.
pub open spec fn instance_renewal() -> Renewal {
    Renewal {
        lease: Lease::Instance,
        threshold: INSTANCE_BUMP_CONSTANT_THRESHOLD,
        extend_to: INSTANCE_BUMP_CONSTANT,
    }
}

impl LedgerView {
    /// Whether the collection was initialized.
    pub open spec fn is_initialized(self) -> bool {
        self.core_data is Some
    }

    /// This ledger after the lease of the configuration was renewed.
    pub open spec fn bump_instance(self) -> LedgerView {
        self.renewing(instance_renewal())
    }
}

/// Renews the lease of the configuration.
pub fn bump_instance(env: &mut Ledger)
    ensures
        final(env)@ == old(env)@.bump_instance(),
{
    env.extend_ttl(Lease::Instance, INSTANCE_BUMP_CONSTANT_THRESHOLD, INSTANCE_BUMP_CONSTANT);
}

/// Whether the collection was initialized.
pub fn is_initialized(env: &Ledger) -> (initialized: bool)
    ensures
        initialized == env@.is_initialized(),
{
    env.has_instance_entry(CoreDataKeys::CoreData)
}

/// Stores the parameters of the collection.
pub fn write_core_data(env: &mut Ledger, core_data: &CoreData)
    ensures
        final(env)@ == (LedgerView { core_data: Some(*core_data), ..old(env)@ }),
{
    env.core_data = Some(*core_data);
}

/// The parameters of the collection. It is an internal error to ask for
/// them before the collection was initialized.
pub fn get_core_data(env: &Ledger) -> (core_data: Result<CoreData, SCErrors>)
    ensures
        core_data == match env@.core_data {
            Some(stored) => Ok::<CoreData, SCErrors>(stored),
            None => Err(SCErrors::UnexpectedError),
        },
{
    match env.core_data {
        Some(stored) => Ok(stored),
        None => Err(SCErrors::UnexpectedError),
    }
}

/// The descriptive data of the collection. It is an internal error to ask
/// for it before the collection was initialized.
pub fn get_metadata(env: &Ledger) -> (metadata: Result<TokenMetadata, SCErrors>)
    ensures
        metadata == match env@.token_metadata {
            Some(stored) => Ok::<TokenMetadata, SCErrors>(stored),
            None => Err(SCErrors::UnexpectedError),
        },
{
    match &env.token_metadata {
        Some(stored) => Ok(stored.clone()),
        None => Err(SCErrors::UnexpectedError),
    }
}

/// Stores the descriptive data of the collection.
pub fn write_token_metadata(env: &mut Ledger, token_metadata: TokenMetadata)
    ensures
        final(env)@ == (LedgerView { token_metadata: Some(token_metadata), ..old(env)@ }),
{
    env.token_metadata = Some(token_metadata);
}

/// The asset in which the sales of the collection are paid.
pub fn collection_currency(env: &Ledger, core_data: &CoreData) -> (currency: AccountId)
    ensures
        currency == core_data.collection_currency,
{
    core_data.collection_currency
}

} // verus!
