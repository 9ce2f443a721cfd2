use crate::bumps::{ITEMS_BUMP_CONSTANT, ITEMS_BUMP_CONSTANT_THRESHOLD};
use crate::errors::SCErrors;
use crate::ledger::{Lease, Ledger, LedgerView, Renewal};
use crate::storage::config::CoreData;
use crate::storage::items::{Item, ItemsDataKeys};
use vstd::prelude::*;

verus! {

broadcast use vstd::std_specs::hash::group_hash_axioms;

/// The renewal that keeps the record of item `number` alive.
pub open spec fn item_renewal(number: u64) -> Renewal {
    Renewal {
        lease: Lease::Item(ItemsDataKeys::Item(number)),
        threshold: ITEMS_BUMP_CONSTANT_THRESHOLD,
        extend_to: ITEMS_BUMP_CONSTANT,
    }
}

/// Whether `number` names an item of the collection.
pub open spec fn valid_item_number(core_data: CoreData, number: u64) -> bool {
    number < core_data.supply
}

impl LedgerView {
    /// Whether an item has a record, which it has from its first sale on.
    pub open spec fn is_minted(self, number: u64) -> bool {
        self.items.contains_key(number)
    }

    /// Whether an item can be bought: its owner offers it, or it was never
    /// sold and is offered at the initial price.
    pub open spec fn is_item_for_sale(self, number: u64) -> bool {
        self.is_minted(number) ==> self.items[number].for_sale
    }

    /// This ledger after `item` was stored under its number.
    pub open spec fn with_item(self, item: Item) -> LedgerView {
        LedgerView { items: self.items.insert(item.number, item), ..self }
    }

    /// This ledger after the lease of item `number` was renewed, which asks
    /// for nothing where the item has no record.
    pub open spec fn bump_item(self, number: u64) -> LedgerView {
        if self.is_minted(number) {
            self.renewing(item_renewal(number))
        } else {
            self
        }
    }
}

/// Renews the lease of an item's record, if it has one.
pub fn bump_item(env: &mut Ledger, number: &u64)
    ensures
        final(env)@ == old(env)@.bump_item(*number),
{
    if env.items.contains_key(number) {
        env.extend_ttl(
            Lease::Item(ItemsDataKeys::Item(*number)),
            ITEMS_BUMP_CONSTANT_THRESHOLD,
            ITEMS_BUMP_CONSTANT,
        );
    }
}

/// Whether an item has a record.
pub fn is_minted(env: &Ledger, number: &u64) -> (minted: bool)
    ensures
        minted == env@.is_minted(*number),
{
    env.items.contains_key(number)
}

/// Whether `number` names an item of the collection.
pub fn is_valid_item_number(core_data: &CoreData, number: &u64) -> (valid: bool)
    ensures
        valid == valid_item_number(*core_data, *number),
{
    *number < core_data.supply
}

/// The record of an item, or `ItemHasNotBeenMinted` where it has none.
pub fn get_item(env: &Ledger, number: &u64) -> (item: Result<Item, SCErrors>)
    ensures
        item == if env@.is_minted(*number) {
            Ok::<Item, SCErrors>(env@.items[*number])
        } else {
            Err(SCErrors::ItemHasNotBeenMinted)
        },
{
    match env.items.get(number) {
        Some(item) => Ok(*item),
        None => Err(SCErrors::ItemHasNotBeenMinted),
    }
}

/// Stores the record of an item under its number, in place of an older one.
pub fn write_item(env: &mut Ledger, item: &Item)
    ensures
        final(env)@ == old(env)@.with_item(*item),
{
    env.items.insert(item.number, *item);
}

/// Whether an item can be bought.
pub fn is_item_for_sale(env: &Ledger, number: &u64) -> (for_sale: bool)
    ensures
        for_sale == env@.is_item_for_sale(*number),
{
    match env.items.get(number) {
        Some(item) => item.for_sale,
        None => true,
    }
}

} // verus!
