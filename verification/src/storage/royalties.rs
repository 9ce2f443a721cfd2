use crate::storage::balances::AccountId;
use vstd::prelude::*;

verus! {

/// A recipient of a part of every sale.
#[derive(Debug)]
pub struct Royalty {
    pub address: AccountId,
    /// Paid on the first sale of an item only, never on a resale.
    pub first_sale: bool,
    pub name: String,
    /// The part of the price that is owed, with seven implied decimals:
    /// `0_0300000` is 3%.
    pub percentage: u128,
}

impl Clone for Royalty {
    fn clone(&self) -> (copy: Self)
        ensures
            copy == *self,
    {
        Royalty {
            address: self.address,
            first_sale: self.first_sale,
            name: self.name.clone(),
            percentage: self.percentage,
        }
    }
}

#[derive(Copy, Clone, Debug, PartialEq, Eq, Structural)]
pub enum RoyaltiesDataKeys {
    /// The royalty table of the collection, in the order it was given.
    Royalties,
}

} // verus!
