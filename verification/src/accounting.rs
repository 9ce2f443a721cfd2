//! The accounts of a collection: every account has to its name exactly the
//! items that it owns. Every operation of the marketplace keeps them so.

use crate::ledger::LedgerView;
use crate::storage::balances::AccountId;
use crate::storage::config::{CoreData, TokenMetadata};
use crate::storage::items::Item;
use crate::storage::royalties::Royalty;
use vstd::prelude::*;
use vstd::set_lib::{lemma_len_subset, lemma_set_disjoint_lens, lemma_set_subset_finite};

verus! {

/// The numbers of the items that `account` owns.
pub open spec fn owned(items: Map<u64, Item>, account: AccountId) -> Set<u64> {
    items.dom().filter(|number: u64| items[number].owner == account)
}

impl LedgerView {
    /// The numbers of the items that `account` owns.
    pub open spec fn owned_by(self, account: AccountId) -> Set<u64> {
        owned(self.items, account)
    }

    /// Whether the ledger is one that the marketplace can have produced:
    /// the three parts of the configuration are there together, only items
    /// of the collection have a record, each under its own number, and
    /// every account has to its name the number of items that it owns.
    pub open spec fn wf(self) -> bool {
        &&& self.items.dom().finite()
        &&& self.balances.dom().finite()
        &&& self.core_data is Some <==> self.token_metadata is Some
        &&& self.core_data is Some <==> self.royalties is Some
        &&& forall|number: u64| #[trigger]
            self.items.contains_key(number) ==> {
                &&& self.items[number].number == number
                &&& self.core_data is Some
                &&& number < self.core_data->0.supply
            }
        &&& forall|account: AccountId| #[trigger]
            self.balance_of(account) == self.owned_by(account).len()
    }
}

/// A finite set of numbers below `bound` has at most `bound` elements.
pub proof fn lemma_numbers_below(numbers: Set<u64>, bound: nat)
    requires
        numbers.finite(),
        forall|number: u64| numbers.contains(number) ==> number < bound,
    ensures
        numbers.len() <= bound,
    decreases bound,
{
    if bound == 0 {
        assert(numbers =~= Set::empty());
    } else if bound - 1 <= u64::MAX {
        let top = (bound - 1) as u64;
        lemma_numbers_below(numbers.remove(top), (bound - 1) as nat);
    } else {
        lemma_numbers_below(numbers, (bound - 1) as nat);
    }
}

/// What an account owns is part of what has a record.
pub proof fn lemma_owned_is_finite(items: Map<u64, Item>, account: AccountId)
    requires
        items.dom().finite(),
    ensures
        owned(items, account).finite(),
        owned(items, account).len() <= items.dom().len(),
{
    assert(owned(items, account).subset_of(items.dom()));
    lemma_set_subset_finite(items.dom(), owned(items, account));
    lemma_len_subset(owned(items, account), items.dom());
}

/// Storing an item puts its number among those of its owner, and takes it
/// from those of every other account.
pub proof fn lemma_owned_after_write(items: Map<u64, Item>, item: Item, account: AccountId)
    requires
        items.dom().finite(),
    ensures
        owned(items.insert(item.number, item), account) == if item.owner == account {
            owned(items, account).insert(item.number)
        } else {
            owned(items, account).remove(item.number)
        },
        owned(items, account).finite(),
{
    lemma_owned_is_finite(items, account);
    let after = owned(items.insert(item.number, item), account);
    if item.owner == account {
        assert(after =~= owned(items, account).insert(item.number));
    } else {
        assert(after =~= owned(items, account).remove(item.number));
    }
}

/// In a well-formed ledger no account owns more items than the collection
/// has.
pub proof fn lemma_balance_within_supply(ledger: LedgerView, account: AccountId)
    requires
        ledger.wf(),
    ensures
        ledger.core_data is None ==> ledger.balance_of(account) == 0,
        ledger.core_data is Some ==> ledger.balance_of(account) <= ledger.core_data->0.supply,
        ledger.balance_of(account) < u128::MAX,
{
    lemma_owned_is_finite(ledger.items, account);
    let mine = ledger.owned_by(account);
    assert(ledger.balance_of(account) == mine.len());
    if ledger.core_data is Some {
        assert forall|number: u64| mine.contains(number) implies number
            < ledger.core_data->0.supply as nat by {
            assert(ledger.items.contains_key(number));
        }
        lemma_numbers_below(mine, ledger.core_data->0.supply as nat);
    } else {
        assert forall|number: u64| !mine.contains(number) by {
            if mine.contains(number) {
                assert(ledger.items.contains_key(number));
            }
        }
        assert(mine =~= Set::empty());
    }
}

/// In a well-formed ledger the owner of an item has at least that item to
/// its name.
pub proof fn lemma_owner_has_balance(ledger: LedgerView, number: u64)
    requires
        ledger.wf(),
        ledger.is_minted(number),
    ensures
        ledger.balance_of(ledger.items[number].owner) >= 1,
{
    let owner = ledger.items[number].owner;
    lemma_owned_is_finite(ledger.items, owner);
    assert(ledger.owned_by(owner).contains(number));
    assert(ledger.balance_of(owner) == ledger.owned_by(owner).len());
    if ledger.owned_by(owner).len() == 0 {
        assert(ledger.owned_by(owner) =~= Set::empty()) by {
            ledger.owned_by(owner).lemma_len0_is_empty();
        }
    }
}

/// Handing an item to its next owner keeps a ledger well formed where the
/// item leaves the name of the one who had it, if anyone had it, and comes
/// to the name of the one who gets it.
proof fn lemma_handover_keeps_accounts(before: LedgerView, item: Item, after: LedgerView)
    requires
        before.wf(),
        before.core_data is Some,
        item.number < before.core_data->0.supply,
        after.core_data == before.core_data,
        after.token_metadata == before.token_metadata,
        after.royalties == before.royalties,
        after.items == before.items.insert(item.number, item),
        after.balances.dom().finite(),
        forall|account: AccountId| #[trigger]
            after.balance_of(account) == before.balance_of(account) - (if before.is_minted(
                item.number,
            ) && before.items[item.number].owner == account {
                1int
            } else {
                0int
            }) + (if item.owner == account {
                1int
            } else {
                0int
            }),
    ensures
        after.wf(),
{
    assert forall|account: AccountId| #[trigger]
        after.balance_of(account) == after.owned_by(account).len() by {
        lemma_owned_after_write(before.items, item, account);
        assert(before.balance_of(account) == before.owned_by(account).len());
        let mine = before.owned_by(account);
        assert(mine.contains(item.number) <==> before.is_minted(item.number)
            && before.items[item.number].owner == account);
    }
}

/// What the accounts in `accounts` have to their names together.
pub open spec fn balances_sum(balances: Map<AccountId, u128>, accounts: Set<AccountId>) -> nat
    decreases accounts.len(),
    when accounts.finite()
{
    if accounts.len() == 0 {
        0
    } else {
        let account = accounts.choose();
        balances[account] as nat + balances_sum(balances, accounts.remove(account))
    }
}

impl LedgerView {
    /// What all accounts have to their names together.
    pub open spec fn total_balance(self) -> nat {
        balances_sum(self.balances, self.balances.dom())
    }
}

/// The numbers of the items whose owner is one of `accounts`.
pub open spec fn owned_among(items: Map<u64, Item>, accounts: Set<AccountId>) -> Set<u64> {
    items.dom().filter(|number: u64| accounts.contains(items[number].owner))
}

/// Accounts with a record have to their names together as many items as
/// they own together.
proof fn lemma_sum_counts_items(ledger: LedgerView, accounts: Set<AccountId>)
    requires
        ledger.wf(),
        accounts.finite(),
        accounts.subset_of(ledger.balances.dom()),
    ensures
        owned_among(ledger.items, accounts).finite(),
        balances_sum(ledger.balances, accounts) == owned_among(ledger.items, accounts).len(),
    decreases accounts.len(),
{
    let all = owned_among(ledger.items, accounts);
    assert(all.subset_of(ledger.items.dom()));
    lemma_set_subset_finite(ledger.items.dom(), all);
    if accounts.len() == 0 {
        assert(accounts =~= Set::empty());
        assert(all =~= Set::empty());
    } else {
        let account = accounts.choose();
        let others = accounts.remove(account);
        lemma_sum_counts_items(ledger, others);
        let theirs = owned_among(ledger.items, others);
        let mine = owned(ledger.items, account);
        lemma_owned_is_finite(ledger.items, account);
        assert(all =~= theirs + mine);
        assert(theirs.disjoint(mine));
        lemma_set_disjoint_lens(theirs, mine);
        assert(ledger.balance_of(account) == ledger.owned_by(account).len());
    }
}

/// In a well-formed ledger the balances add up to the number of items that
/// have a record.
pub proof fn lemma_balances_add_up(ledger: LedgerView)
    requires
        ledger.wf(),
    ensures
        ledger.total_balance() == ledger.items.dom().len(),
{
    let holders = ledger.balances.dom();
    lemma_sum_counts_items(ledger, holders);
    assert forall|number: u64| ledger.items.contains_key(number) implies holders.contains(
        ledger.items[number].owner,
    ) by {
        lemma_owner_has_balance(ledger, number);
    }
    assert(owned_among(ledger.items, holders) =~= ledger.items.dom());
}

/// A ledger without entries is well formed.
pub proof fn lemma_empty_is_well_formed()
    ensures
        LedgerView::empty().wf(),
{
    let ledger = LedgerView::empty();
    assert forall|account: AccountId| #[trigger]
        ledger.balance_of(account) == ledger.owned_by(account).len() by {
        assert(ledger.owned_by(account) =~= Set::empty());
    }
}

/// What only adds to the journal keeps a ledger well formed.
pub proof fn lemma_journal_keeps_accounts(before: LedgerView, after: LedgerView)
    requires
        before.wf(),
        after.core_data == before.core_data,
        after.token_metadata == before.token_metadata,
        after.royalties == before.royalties,
        after.items == before.items,
        after.balances == before.balances,
    ensures
        after.wf(),
{
    assert forall|account: AccountId| #[trigger]
        after.balance_of(account) == after.owned_by(account).len() by {
        assert(before.balance_of(account) == before.owned_by(account).len());
    }
}

/// Initializing a collection keeps its ledger well formed.
pub proof fn lemma_init_keeps_accounts(
    ledger: LedgerView,
    core_data: CoreData,
    token_metadata: TokenMetadata,
    royalties: Seq<Royalty>,
)
    requires
        ledger.wf(),
        !ledger.is_initialized(),
    ensures
        ledger.initialized_with(core_data, token_metadata, royalties).wf(),
{
    let after = ledger.initialized_with(core_data, token_metadata, royalties);
    assert(after.items == ledger.items);
    assert(after.balances == ledger.balances);
    assert forall|number: u64| !(#[trigger] ledger.items.contains_key(number)) by {}
    assert forall|account: AccountId| #[trigger]
        after.balance_of(account) == after.owned_by(account).len() by {
        assert(ledger.balance_of(account) == ledger.owned_by(account).len());
    }
}

/// A sale keeps the ledger well formed.
pub proof fn lemma_buy_keeps_accounts(ledger: LedgerView, buyer: AccountId, number: u64)
    requires
        ledger.wf(),
        ledger.buy_error(buyer, number) is None,
    ensures
        ledger.bought(buyer, number).wf(),
{
    let after = ledger.bought(buyer, number);
    let item = Item { number, owner: buyer, for_sale: false, price: 0 };
    assert(after.items == ledger.items.insert(number, item));
    if ledger.is_minted(number) {
        lemma_owner_has_balance(ledger, number);
    }
    lemma_handover_keeps_accounts(ledger, item, after);
}

/// Listing an item, or withdrawing it, keeps the ledger well formed.
pub proof fn lemma_sell_keeps_accounts(ledger: LedgerView, number: u64, price: u128)
    requires
        ledger.wf(),
        ledger.item_error(number) is None,
    ensures
        ledger.listed(number, price).wf(),
{
    let after = ledger.listed(number, price);
    let item = Item { for_sale: price != 0, price, ..ledger.items[number] };
    assert(ledger.items.contains_key(number));
    assert(item.number == number);
    assert(after.items == ledger.items.insert(number, item));
    assert(after.balances == ledger.balances);
    lemma_handover_keeps_accounts(ledger, item, after);
}

/// A transfer keeps the ledger well formed.
pub proof fn lemma_transfer_keeps_accounts(ledger: LedgerView, number: u64, to: AccountId)
    requires
        ledger.wf(),
        ledger.transfer_error(number, to) is None,
    ensures
        ledger.transferred(number, to).wf(),
{
    let after = ledger.transferred(number, to);
    let item = Item { owner: to, for_sale: false, price: 0, ..ledger.items[number] };
    assert(ledger.items.contains_key(number));
    assert(item.number == number);
    assert(after.items == ledger.items.insert(number, item));
    lemma_handover_keeps_accounts(ledger, item, after);
}

/// Minting an item keeps the ledger well formed.
pub proof fn lemma_mint_keeps_accounts(ledger: LedgerView, number: u64, to: AccountId)
    requires
        ledger.wf(),
        ledger.mint_error(number, to) is None,
    ensures
        ledger.minted_to(number, to).wf(),
{
    let after = ledger.minted_to(number, to);
    let item = Item { number, owner: to, for_sale: false, price: 0 };
    assert(after.items == ledger.items.insert(number, item));
    lemma_handover_keeps_accounts(ledger, item, after);
}

} // verus!
