//! What the marketplace guarantees of its operations, whatever the ledger
//! and the accounts.

use crate::accounting::{lemma_balance_within_supply, lemma_owner_has_balance};
use crate::errors::SCErrors;
use crate::ledger::{Event, LedgerView};
use crate::royalty_math::{
    lemma_modest_table_is_payable, lemma_sale_moves_price, owed, paid_out, payable, sale_payments,
    share_of, total_owed, total_percentage, FIXED_POINT_ONE,
};
use crate::storage::balances::AccountId;
use crate::storage::config::{CoreData, TokenMetadata};
use crate::storage::items::Item;
use crate::storage::royalties::Royalty;
use vstd::prelude::*;

verus! {

/// An item of the collection that was never sold is for sale, and anyone
/// can buy it: at the initial price, from the initial seller. This holds
/// wherever the royalty table can be paid from the initial price.
pub proof fn unsold_item_sells_at_initial_price(ledger: LedgerView, buyer: AccountId, number: u64)
    requires
        ledger.wf(),
        ledger.core_data is Some,
        number < ledger.core_data->0.supply,
        !ledger.is_minted(number),
        payable(ledger.royalties->0, ledger.core_data->0.initial_price, false),
    ensures
        ledger.is_item_for_sale(number),
        ledger.buy_error(buyer, number) is None,
        ledger.bought(buyer, number).payments == ledger.payments + sale_payments(
            ledger.royalties->0,
            buyer,
            ledger.core_data->0.initial_seller,
            ledger.core_data->0.initial_price,
            false,
        ),
        paid_out(
            sale_payments(
                ledger.royalties->0,
                buyer,
                ledger.core_data->0.initial_seller,
                ledger.core_data->0.initial_price,
                false,
            ),
        ) == ledger.core_data->0.initial_price,
        ledger.bought(buyer, number).events.last() == (Event::Buy {
            seller: ledger.core_data->0.initial_seller,
            buyer,
            item_id: number,
            price: ledger.core_data->0.initial_price,
        }),
{
    let core_data = ledger.core_data->0;
    lemma_balance_within_supply(ledger, buyer);
    lemma_sale_moves_price(
        ledger.royalties->0,
        buyer,
        core_data.initial_seller,
        core_data.initial_price,
        false,
    );
    assert(ledger.bought(buyer, number).payments =~= ledger.payments + sale_payments(
        ledger.royalties->0,
        buyer,
        core_data.initial_seller,
        core_data.initial_price,
        false,
    ));
}

/// Where the percentages of the royalty table add up to no more than the
/// whole, and the initial price times one whole unit fits in 128 bits,
/// every item of the collection that was never sold can be bought.
pub proof fn unsold_item_sells_under_modest_royalties(
    ledger: LedgerView,
    buyer: AccountId,
    number: u64,
)
    requires
        ledger.wf(),
        ledger.core_data is Some,
        number < ledger.core_data->0.supply,
        !ledger.is_minted(number),
        total_percentage(ledger.royalties->0) <= FIXED_POINT_ONE,
        ledger.core_data->0.initial_price * FIXED_POINT_ONE <= u128::MAX,
    ensures
        ledger.is_item_for_sale(number),
        ledger.buy_error(buyer, number) is None,
{
    lemma_modest_table_is_payable(ledger.royalties->0, ledger.core_data->0.initial_price, false);
    unsold_item_sells_at_initial_price(ledger, buyer, number);
}

/// A number that is not below the supply names no item: every operation
/// that takes one rejects it with `ItemNumberIsInvalid`.
pub proof fn number_beyond_supply_is_rejected(
    ledger: LedgerView,
    account: AccountId,
    number: u64,
)
    requires
        ledger.core_data is Some,
        number >= ledger.core_data->0.supply,
    ensures
        ledger.buy_error(account, number) == Some(SCErrors::ItemNumberIsInvalid),
        ledger.item_error(number) == Some(SCErrors::ItemNumberIsInvalid),
        ledger.transfer_error(number, account) == Some(SCErrors::ItemNumberIsInvalid),
        ledger.mint_error(number, account) == Some(SCErrors::ItemNumberIsInvalid),
{
}

/// After a first sale the item has a record that can be read: it belongs
/// to the buyer, is not listed and has no price, and the buyer has one item
/// more to its name.
pub proof fn first_sale_hands_item_to_buyer(ledger: LedgerView, buyer: AccountId, number: u64)
    requires
        ledger.buy_error(buyer, number) is None,
        !ledger.is_minted(number),
    ensures
        ledger.bought(buyer, number).item_error(number) is None,
        ledger.bought(buyer, number).items[number] == (Item {
            number,
            owner: buyer,
            for_sale: false,
            price: 0,
        }),
        ledger.bought(buyer, number).balance_of(buyer) == ledger.balance_of(buyer) + 1,
        forall|other: AccountId|
            other != buyer ==> ledger.bought(buyer, number).balance_of(other)
                == ledger.balance_of(other),
{
}

/// A resale takes the item from the name of its owner and puts it to the
/// name of the buyer. The royalties that are not for first sales only are
/// owed their share of the owner's price, rounded down, the others
/// nothing; the owner is paid the price less those shares, and the buyer
/// pays the price exactly.
pub proof fn resale_pays_owner_and_lasting_royalties(
    ledger: LedgerView,
    buyer: AccountId,
    number: u64,
)
    requires
        ledger.buy_error(buyer, number) is None,
        ledger.is_minted(number),
    ensures
        ledger.bought(buyer, number).items[number] == (Item {
            number,
            owner: buyer,
            for_sale: false,
            price: 0,
        }),
        forall|account: AccountId|
            ledger.bought(buyer, number).balance_of(account) == ledger.balance_of(account) - (
            if account == ledger.items[number].owner {
                1int
            } else {
                0int
            }) + (if account == buyer {
                1int
            } else {
                0int
            }),
        forall|i: int|
            0 <= i < ledger.royalties->0.len() ==> owed(
                #[trigger] ledger.royalties->0[i],
                ledger.items[number].price,
                true,
            ) == if ledger.royalties->0[i].first_sale {
                0
            } else {
                share_of(ledger.items[number].price, ledger.royalties->0[i].percentage)
            },
        ledger.bought(buyer, number).payments == ledger.payments + sale_payments(
            ledger.royalties->0,
            buyer,
            ledger.items[number].owner,
            ledger.items[number].price,
            true,
        ),
        sale_payments(
            ledger.royalties->0,
            buyer,
            ledger.items[number].owner,
            ledger.items[number].price,
            true,
        ).last().amount == ledger.items[number].price - total_owed(
            ledger.royalties->0,
            ledger.items[number].price,
            true,
        ),
        paid_out(
            sale_payments(
                ledger.royalties->0,
                buyer,
                ledger.items[number].owner,
                ledger.items[number].price,
                true,
            ),
        ) == ledger.items[number].price,
{
    let item = ledger.items[number];
    lemma_sale_moves_price(ledger.royalties->0, buyer, item.owner, item.price, true);
    assert(ledger.bought(buyer, number).payments =~= ledger.payments + sale_payments(
        ledger.royalties->0,
        buyer,
        item.owner,
        item.price,
        true,
    ));
}

/// Selling at price 0 withdraws a listing: the item is not for sale
/// afterwards. Its owner and every balance stay as they were, and no
/// payment is asked for.
pub proof fn selling_at_zero_withdraws_listing(ledger: LedgerView, number: u64)
    requires
        ledger.wf(),
        ledger.item_error(number) is None,
    ensures
        !ledger.listed(number, 0).items[number].for_sale,
        ledger.listed(number, 0).items[number].price == 0,
        ledger.listed(number, 0).items[number].owner == ledger.items[number].owner,
        ledger.listed(number, 0).balances == ledger.balances,
        ledger.listed(number, 0).payments == ledger.payments,
{
    assert(ledger.items.contains_key(number));
}

/// An item that has a record cannot be minted. An item of the collection
/// that has none can: the record is made, and no payment is asked for.
pub proof fn mint_only_unminted_without_payment(ledger: LedgerView, number: u64, to: AccountId)
    requires
        ledger.wf(),
    ensures
        ledger.is_minted(number) ==> ledger.mint_error(number, to) == Some(
            SCErrors::ItemWasAlreadyMinted,
        ),
        !ledger.is_minted(number) && ledger.core_data is Some && number
            < ledger.core_data->0.supply ==> {
            &&& ledger.mint_error(number, to) is None
            &&& ledger.minted_to(number, to).items[number] == (Item {
                number,
                owner: to,
                for_sale: false,
                price: 0,
            })
            &&& ledger.minted_to(number, to).balance_of(to) == ledger.balance_of(to) + 1
            &&& ledger.minted_to(number, to).payments == ledger.payments
        },
{
    lemma_balance_within_supply(ledger, to);
    if ledger.is_minted(number) {
        assert(ledger.items.contains_key(number));
    }
}

/// A transfer leaves the item with its new owner, not listed and without a
/// price, whether it was listed or not. No payment is asked for, and the
/// only record published is that of the transfer.
pub proof fn transfer_resets_listing_without_payment(
    ledger: LedgerView,
    number: u64,
    to: AccountId,
)
    requires
        ledger.wf(),
        ledger.transfer_error(number, to) is None,
    ensures
        ledger.transferred(number, to).items[number] == (Item {
            number,
            owner: to,
            for_sale: false,
            price: 0,
        }),
        ledger.transferred(number, to).payments == ledger.payments,
        ledger.transferred(number, to).events == ledger.events.push(
            Event::Transfer { from: ledger.items[number].owner, to, item_id: number },
        ),
{
    assert(ledger.items.contains_key(number));
}

/// In a well-formed ledger a transfer never fails for the accounts: it is
/// rejected only where the item cannot be read.
pub proof fn transfer_of_minted_item_succeeds(ledger: LedgerView, number: u64, to: AccountId)
    requires
        ledger.wf(),
    ensures
        ledger.transfer_error(number, to) == ledger.item_error(number),
{
    if ledger.item_error(number) is None {
        let owner = ledger.items[number].owner;
        lemma_owner_has_balance(ledger, number);
        lemma_balance_within_supply(ledger, to);
        lemma_balance_within_supply(ledger, owner);
    }
}

/// Once a collection was initialized it stays so: whatever a first call of
/// `init` was given, the ledger that it leaves holds a configuration, so
/// that every later call is rejected and changes nothing.
pub proof fn initialized_once(
    ledger: LedgerView,
    core_data: CoreData,
    token_metadata: TokenMetadata,
    royalties: Seq<Royalty>,
)
    ensures
        ledger.initialized_with(core_data, token_metadata, royalties).is_initialized(),
        ledger.initialized_with(core_data, token_metadata, royalties).core_data == Some(
            core_data,
        ),
        ledger.initialized_with(core_data, token_metadata, royalties).token_metadata == Some(
            token_metadata,
        ),
        ledger.initialized_with(core_data, token_metadata, royalties).royalties == Some(
            royalties,
        ),
{
}

} // verus!
