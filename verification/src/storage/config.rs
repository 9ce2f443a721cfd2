use crate::storage::balances::AccountId;
use vstd::prelude::*;

verus! {

/// Descriptive data of the collection.
#[derive(Debug)]
pub struct TokenMetadata {
    pub name: String,
    pub symbol: String,
    /// Where the metadata of the collection is hosted.
    pub metadata_uri: String,
}

impl Clone for TokenMetadata {
    fn clone(&self) -> (copy: Self)
        ensures
            copy == *self,
    {
        TokenMetadata {
            name: self.name.clone(),
            symbol: self.symbol.clone(),
            metadata_uri: self.metadata_uri.clone(),
        }
    }
}

/// The parameters of a collection. They are written once, when the
/// collection is initialized, and never change.
#[derive(Copy, Clone, Debug, PartialEq, Eq, Structural)]
pub struct CoreData {
    pub admin: AccountId,
    /// The number of items. Item numbers run from 0 up to, not including,
    /// the supply.
    pub supply: u64,
    /// The price of an item at its first sale, with seven implied decimals.
    pub initial_price: u128,
    /// The asset in which every sale is paid.
    pub collection_currency: AccountId,
    /// Who is paid for the first sale of an item.
    pub initial_seller: AccountId,
}

#[derive(Copy, Clone, Debug, PartialEq, Eq, Structural)]
pub enum CoreDataKeys {
    CoreData,
    TokenMetadata,
}

} // verus!
