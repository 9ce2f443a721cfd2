use crate::storage::balances::AccountId;
use vstd::prelude::*;

verus! {

/// An item of the collection. An item has one owner; an account may own
/// many items. There is no record of an item before its first sale.
#[derive(Copy, Clone, Debug, PartialEq, Eq, Structural)]
pub struct Item {
    pub number: u64,
    pub owner: AccountId,
    pub for_sale: bool,
    /// The asking price, with seven implied decimals; 0 while not listed.
    pub price: u128,
}

#[derive(Copy, Clone, Debug, PartialEq, Eq, Structural)]
pub enum ItemsDataKeys {
    Item(u64),
}

} // verus!
