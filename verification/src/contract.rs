use crate::accounting::{
    lemma_buy_keeps_accounts, lemma_init_keeps_accounts, lemma_journal_keeps_accounts,
    lemma_mint_keeps_accounts, lemma_sell_keeps_accounts, lemma_transfer_keeps_accounts,
};
use crate::errors::SCErrors;
use crate::events;
use crate::ledger::{Event, Ledger, LedgerView, Payment};
use crate::royalty_math::{distribute, payable, royalty_events, sale_payments};
use crate::storage::balances::AccountId;
use crate::storage::config::{CoreData, TokenMetadata};
use crate::storage::items::Item;
use crate::storage::royalties::Royalty;
use crate::utils::balances::{bump_balance, get_balance, write_balance};
use crate::utils::config::{
    bump_instance, get_core_data, get_metadata, is_initialized, write_core_data,
    write_token_metadata,
};
use crate::utils::items::{
    bump_item, get_item, is_item_for_sale, is_minted, is_valid_item_number, valid_item_number,
    write_item,
};
use crate::utils::royalties::{bump_royalties, get_royalties, write_royalties};
use vstd::prelude::*;

verus! {

impl LedgerView {
    /// This ledger after the collection was initialized.
    pub open spec fn initialized_with(
        self,
        core_data: CoreData,
        token_metadata: TokenMetadata,
        royalties: Seq<Royalty>,
    ) -> LedgerView {
        LedgerView {
            core_data: Some(core_data),
            token_metadata: Some(token_metadata),
            royalties: Some(royalties),
            ..self
        }.bump_instance().bump_royalties()
    }

    /// Why the descriptive data of the collection cannot be read, if it
    /// cannot.
    pub open spec fn metadata_error(self) -> Option<SCErrors> {
        if self.core_data is None || self.token_metadata is None {
            Some(SCErrors::UnexpectedError)
        } else {
            None
        }
    }

    /// Why the record of item `number` cannot be read, if it cannot.
    pub open spec fn item_error(self, number: u64) -> Option<SCErrors> {
        if self.core_data is None {
            Some(SCErrors::UnexpectedError)
        } else if !valid_item_number(self.core_data->0, number) {
            Some(SCErrors::ItemNumberIsInvalid)
        } else if !self.is_minted(number) {
            Some(SCErrors::ItemHasNotBeenMinted)
        } else {
            None
        }
    }

    /// What item `number` costs: what its owner asks, or the initial price
    /// before its first sale.
    pub open spec fn sale_price(self, number: u64) -> u128 {
        if self.is_minted(number) {
            self.items[number].price
        } else {
            self.core_data->0.initial_price
        }
    }

    /// Who is paid for item `number`: its owner, or the initial seller
    /// before its first sale.
    pub open spec fn seller_of(self, number: u64) -> AccountId {
        if self.is_minted(number) {
            self.items[number].owner
        } else {
            self.core_data->0.initial_seller
        }
    }

    /// This ledger with one item less to the name of `account`.
    pub open spec fn debited(self, account: AccountId) -> LedgerView {
        self.with_balance(account, (self.balance_of(account) - 1) as u128)
    }

    /// This ledger with one item more to the name of `account`.
    pub open spec fn credited(self, account: AccountId) -> LedgerView {
        self.with_balance(account, (self.balance_of(account) + 1) as u128)
    }

    /// Whether the accounts of a sale of item `number` to `buyer` work out:
    /// the royalty table is there and can be paid from the price, the owner
    /// has the item to its name, and the buyer can take one more.
    pub open spec fn sale_is_sound(self, buyer: AccountId, number: u64) -> bool {
        let resale = self.is_minted(number);
        let seller = self.seller_of(number);
        &&& self.royalties is Some
        &&& payable(self.royalties->0, self.sale_price(number), resale)
        &&& resale ==> self.balance_of(seller) >= 1
        &&& (if resale {
            self.debited(seller)
        } else {
            self
        }).balance_of(buyer) < u128::MAX
    }

    /// Why `buyer` cannot buy item `number`, if it cannot.
    pub open spec fn buy_error(self, buyer: AccountId, number: u64) -> Option<SCErrors> {
        if self.core_data is None {
            Some(SCErrors::UnexpectedError)
        } else if !valid_item_number(self.core_data->0, number) {
            Some(SCErrors::ItemNumberIsInvalid)
        } else if !self.is_item_for_sale(number) {
            Some(SCErrors::ItemIsNotForSale)
        } else if !self.sale_is_sound(buyer, number) {
            Some(SCErrors::UnexpectedError)
        } else {
            None
        }
    }

    /// This ledger after `buyer` bought item `number`.
    pub open spec fn bought(self, buyer: AccountId, number: u64) -> LedgerView {
        let resale = self.is_minted(number);
        let price = self.sale_price(number);
        let seller = self.seller_of(number);
        let table = self.royalties->0;
        let entered = self.bump_instance().authorized_by(buyer);
        let released = if resale {
            entered.debited(seller).bump_balance(seller)
        } else {
            entered
        };
        let paid = LedgerView {
            payments: released.payments + sale_payments(table, buyer, seller, price, resale),
            events: released.events + royalty_events(table, number, price, resale),
            ..released
        };
        paid.with_item(Item { number, owner: buyer, for_sale: false, price: 0 }).credited(
            buyer,
        ).bump_item(number).bump_balance(buyer).bump_royalties().publishing(
            Event::Buy { seller, buyer, item_id: number, price },
        )
    }

    /// This ledger after the owner of item `number` listed it at `price`,
    /// or withdrew it with a price of 0.
    pub open spec fn listed(self, number: u64, price: u128) -> LedgerView {
        let item = self.items[number];
        self.bump_instance().authorized_by(item.owner).with_item(
            Item { for_sale: price != 0, price, ..item },
        ).bump_item(number).bump_royalties().bump_balance(item.owner).publishing(
            Event::Sell { seller: item.owner, item_id: number, price },
        )
    }

    /// Why item `number` cannot be transferred to `to`, if it cannot.
    pub open spec fn transfer_error(self, number: u64, to: AccountId) -> Option<SCErrors> {
        if self.item_error(number) is Some {
            self.item_error(number)
        } else if self.balance_of(self.items[number].owner) == 0 {
            Some(SCErrors::UnexpectedError)
        } else if self.debited(self.items[number].owner).balance_of(to) == u128::MAX {
            Some(SCErrors::UnexpectedError)
        } else {
            None
        }
    }

    /// This ledger after the owner of item `number` gave it to `to`.
    pub open spec fn transferred(self, number: u64, to: AccountId) -> LedgerView {
        let item = self.items[number];
        self.bump_instance().authorized_by(item.owner).debited(item.owner).credited(to).with_item(
            Item { owner: to, for_sale: false, price: 0, ..item },
        ).bump_item(number).bump_royalties().bump_balance(item.owner).bump_balance(to).publishing(
            Event::Transfer { from: item.owner, to, item_id: number },
        )
    }

    /// Why item `number` cannot be minted to `to`, if it cannot.
    pub open spec fn mint_error(self, number: u64, to: AccountId) -> Option<SCErrors> {
        if self.core_data is None {
            Some(SCErrors::UnexpectedError)
        } else if !valid_item_number(self.core_data->0, number) {
            Some(SCErrors::ItemNumberIsInvalid)
        } else if self.is_minted(number) {
            Some(SCErrors::ItemWasAlreadyMinted)
        } else if self.balance_of(to) == u128::MAX {
            Some(SCErrors::UnexpectedError)
        } else {
            None
        }
    }

    /// This ledger after the initial seller handed item `number` to `to`.
    pub open spec fn minted_to(self, number: u64, to: AccountId) -> LedgerView {
        self.bump_instance().authorized_by(self.core_data->0.initial_seller).credited(to).with_item(
            Item { number, owner: to, for_sale: false, price: 0 },
        ).bump_item(number).bump_balance(to).bump_royalties().publishing(
            Event::Mint { to, item_id: number },
        )
    }
}

/// The marketplace of one collection. Every operation works on the ledger
/// of the collection, and either succeeds or leaves the ledger as it was.
pub struct CollectibleContract;

impl CollectibleContract {
    /// Sets the parameters of the collection, its descriptive data and its
    /// royalty table. None of them can be changed afterwards: a second call
    /// is rejected with `AlreadyInitialized`.
    pub fn init(
        env: &mut Ledger,
        admin: AccountId,
        supply: u64,
        initial_price: u128,
        initial_seller: AccountId,
        collection_currency: AccountId,
        name: String,
        symbol: String,
        metadata_uri: String,
        royalties: Vec<Royalty>,
    ) -> (done: Result<(), SCErrors>)
        ensures
            match done {
                Ok(()) => {
                    &&& !old(env)@.is_initialized()
                    &&& final(env)@ == old(env)@.initialized_with(
                        CoreData { admin, supply, initial_price, collection_currency, initial_seller },
                        TokenMetadata { name, symbol, metadata_uri },
                        royalties@,
                    )
                },
                Err(error) => {
                    &&& error == SCErrors::AlreadyInitialized
                    &&& old(env)@.is_initialized()
                    &&& final(env)@ == old(env)@
                },
            },
            old(env)@.wf() ==> final(env)@.wf(),
    {
        if is_initialized(env) {
            return Err(SCErrors::AlreadyInitialized);
        }
        write_core_data(
            env,
            &CoreData { admin, supply, initial_price, initial_seller, collection_currency },
        );
        write_token_metadata(env, TokenMetadata { name, symbol, metadata_uri });
        write_royalties(env, &royalties);
        bump_instance(env);
        bump_royalties(env);
        proof {
            if old(env)@.wf() {
                lemma_init_keeps_accounts(
                    old(env)@,
                    CoreData { admin, supply, initial_price, collection_currency, initial_seller },
                    TokenMetadata { name, symbol, metadata_uri },
                    royalties@,
                );
            }
        }
        Ok(())
    }

    /// Asks for the administrator's authorization to replace the code of the
    /// marketplace. Replacing it is the host's part.
    pub fn upgrade(env: &mut Ledger) -> (done: Result<(), SCErrors>)
        ensures
            match done {
                Ok(()) => {
                    &&& old(env)@.core_data is Some
                    &&& final(env)@
                        == old(env)@.bump_instance().authorized_by(old(env)@.core_data->0.admin)
                },
                Err(error) => {
                    &&& error == SCErrors::UnexpectedError
                    &&& old(env)@.core_data is None
                    &&& final(env)@ == old(env)@
                },
            },
            old(env)@.wf() ==> final(env)@.wf(),
    {
        let core_data = get_core_data(env)?;
        bump_instance(env);
        env.require_auth(core_data.admin);
        proof {
            if old(env)@.wf() {
                lemma_journal_keeps_accounts(old(env)@, env@);
            }
        }
        Ok(())
    }

    /// The version of the marketplace rules.
    pub fn version(env: &mut Ledger) -> (version: Result<&'static str, SCErrors>)
        ensures
            match version {
                Ok(version) => {
                    &&& old(env)@.is_initialized()
                    &&& version@ == "0_0_1"@
                    &&& final(env)@ == old(env)@.bump_instance()
                },
                Err(error) => {
                    &&& error == SCErrors::UnexpectedError
                    &&& !old(env)@.is_initialized()
                    &&& final(env)@ == old(env)@
                },
            },
            old(env)@.wf() ==> final(env)@.wf(),
    {
        get_core_data(env)?;
        bump_instance(env);
        proof {
            if old(env)@.wf() {
                lemma_journal_keeps_accounts(old(env)@, env@);
            }
        }
        Ok("0_0_1")
    }

    /// How many items of the collection an account owns: 0 for an account
    /// that the collection has never seen.
    pub fn balance(env: &mut Ledger, id: AccountId) -> (balance: Result<u128, SCErrors>)
        ensures
            match balance {
                Ok(balance) => {
                    &&& old(env)@.is_initialized()
                    &&& balance == old(env)@.balance_of(id)
                    &&& final(env)@ == old(env)@.bump_instance().bump_balance(id)
                },
                Err(error) => {
                    &&& error == SCErrors::UnexpectedError
                    &&& !old(env)@.is_initialized()
                    &&& final(env)@ == old(env)@
                },
            },
            old(env)@.wf() ==> final(env)@.wf(),
    {
        get_core_data(env)?;
        bump_instance(env);
        bump_balance(env, &id);
        proof {
            if old(env)@.wf() {
                lemma_journal_keeps_accounts(old(env)@, env@);
            }
        }
        Ok(get_balance(env, &id))
    }

    /// Sells item `item_number` to `buyer`, who has to authorize it. An item
    /// that was never sold is bought from the initial seller at the initial
    /// price; any other only while its owner offers it, at the owner's price.
    /// Every royalty that applies is paid out of the price, rounded down, and
    /// the seller is paid the rest.
    pub fn buy(env: &mut Ledger, buyer: AccountId, item_number: u64) -> (done: Result<
        (),
        SCErrors,
    >)
        ensures
            match done {
                Ok(()) => {
                    &&& old(env)@.buy_error(buyer, item_number) is None
                    &&& final(env)@ == old(env)@.bought(buyer, item_number)
                },
                Err(error) => {
                    &&& old(env)@.buy_error(buyer, item_number) == Some(error)
                    &&& final(env)@ == old(env)@
                },
            },
            old(env)@.wf() ==> final(env)@.wf(),
    {
        let core_data = get_core_data(env)?;
        if !is_valid_item_number(&core_data, &item_number) {
            return Err(SCErrors::ItemNumberIsInvalid);
        }
        if !is_item_for_sale(env, &item_number) {
            return Err(SCErrors::ItemIsNotForSale);
        }
        let is_minted_val: bool = is_minted(env, &item_number);
        let (price, seller) = match get_item(env, &item_number) {
            Ok(item) => (item.price, item.owner),
            Err(_) => (core_data.initial_price, core_data.initial_seller),
        };
        let royalties = match get_royalties(env) {
            Ok(table) => table,
            Err(_) => return Err(SCErrors::UnexpectedError),
        };
        let mut split = match distribute(&royalties, buyer, item_number, price, is_minted_val) {
            Some(split) => split,
            None => return Err(SCErrors::UnexpectedError),
        };
        if split.total > price || price - split.total > i128::MAX as u128 {
            return Err(SCErrors::UnexpectedError);
        }
        let seller_balance: u128 = get_balance(env, &seller);
        if is_minted_val && seller_balance == 0 {
            return Err(SCErrors::UnexpectedError);
        }
        let buyer_balance: u128 = if is_minted_val && seller == buyer {
            seller_balance - 1
        } else {
            get_balance(env, &buyer)
        };
        if buyer_balance == u128::MAX {
            return Err(SCErrors::UnexpectedError);
        }
        bump_instance(env);
        env.require_auth(buyer);
        // A resale takes the item from the name of its owner.
        if is_minted_val {
            write_balance(env, &seller, &(seller_balance - 1));
            bump_balance(env, &seller);
        }
        env.payments.append(&mut split.payments);
        env.events.append(&mut split.events);
        write_item(env, &Item { number: item_number, for_sale: false, owner: buyer, price: 0 });
        write_balance(env, &buyer, &(buyer_balance + 1));
        env.pay(Payment { from: buyer, to: seller, amount: (price - split.total) as i128 });
        bump_item(env, &item_number);
        bump_balance(env, &buyer);
        bump_royalties(env);
        events::buy(env, seller, buyer, item_number, price);
        proof {
            if old(env)@.wf() {
                lemma_buy_keeps_accounts(old(env)@, buyer, item_number);
            }
        }
        Ok(())
    }

    /// Lists item `item_number` at `price`, which its owner has to
    /// authorize. A price of 0 withdraws the listing.
    pub fn sell(env: &mut Ledger, item_number: u64, price: u128) -> (done: Result<(), SCErrors>)
        ensures
            match done {
                Ok(()) => {
                    &&& old(env)@.item_error(item_number) is None
                    &&& final(env)@ == old(env)@.listed(item_number, price)
                },
                Err(error) => {
                    &&& old(env)@.item_error(item_number) == Some(error)
                    &&& final(env)@ == old(env)@
                },
            },
            old(env)@.wf() ==> final(env)@.wf(),
    {
        let core_data = get_core_data(env)?;
        if !is_valid_item_number(&core_data, &item_number) {
            return Err(SCErrors::ItemNumberIsInvalid);
        }
        let mut item: Item = get_item(env, &item_number)?;
        bump_instance(env);
        env.require_auth(item.owner);
        item.for_sale = price != 0;
        item.price = price;
        write_item(env, &item);
        bump_item(env, &item_number);
        bump_royalties(env);
        bump_balance(env, &item.owner);
        events::sell(env, item.owner, item_number, price);
        proof {
            if old(env)@.wf() {
                lemma_sell_keeps_accounts(old(env)@, item_number, price);
            }
        }
        Ok(())
    }

    /// The record of an item, which tells whether it is listed and at what
    /// price. An item that was never sold has none.
    pub fn item(env: &mut Ledger, number: u64) -> (item: Result<Item, SCErrors>)
        ensures
            match item {
                Ok(item) => {
                    &&& old(env)@.item_error(number) is None
                    &&& item == old(env)@.items[number]
                    &&& final(env)@ == old(env)@.bump_instance().bump_item(number)
                },
                Err(error) => {
                    &&& old(env)@.item_error(number) == Some(error)
                    &&& final(env)@ == old(env)@
                },
            },
            old(env)@.wf() ==> final(env)@.wf(),
    {
        let core_data = get_core_data(env)?;
        if !is_valid_item_number(&core_data, &number) {
            return Err(SCErrors::ItemNumberIsInvalid);
        }
        let item = get_item(env, &number)?;
        bump_instance(env);
        bump_item(env, &number);
        proof {
            if old(env)@.wf() {
                lemma_journal_keeps_accounts(old(env)@, env@);
            }
        }
        Ok(item)
    }

    /// Gives item `item_number` to `to`, which its owner has to authorize.
    /// No royalty is paid, and the item is no longer listed afterwards.
    pub fn transfer(env: &mut Ledger, item_number: u64, to: AccountId) -> (done: Result<
        (),
        SCErrors,
    >)
        ensures
            match done {
                Ok(()) => {
                    &&& old(env)@.transfer_error(item_number, to) is None
                    &&& final(env)@ == old(env)@.transferred(item_number, to)
                },
                Err(error) => {
                    &&& old(env)@.transfer_error(item_number, to) == Some(error)
                    &&& final(env)@ == old(env)@
                },
            },
            old(env)@.wf() ==> final(env)@.wf(),
    {
        let core_data = get_core_data(env)?;
        if !is_valid_item_number(&core_data, &item_number) {
            return Err(SCErrors::ItemNumberIsInvalid);
        }
        let mut item: Item = get_item(env, &item_number)?;
        let from: AccountId = item.owner;
        let current_owner_balance: u128 = get_balance(env, &from);
        if current_owner_balance == 0 {
            return Err(SCErrors::UnexpectedError);
        }
        let new_owner_balance: u128 = if to == from {
            current_owner_balance - 1
        } else {
            get_balance(env, &to)
        };
        if new_owner_balance == u128::MAX {
            return Err(SCErrors::UnexpectedError);
        }
        bump_instance(env);
        env.require_auth(from);
        write_balance(env, &from, &(current_owner_balance - 1));
        write_balance(env, &to, &(new_owner_balance + 1));
        item.owner = to;
        item.price = 0;
        item.for_sale = false;
        write_item(env, &item);
        bump_item(env, &item_number);
        bump_royalties(env);
        bump_balance(env, &from);
        bump_balance(env, &to);
        events::transfer(env, from, to, item_number);
        proof {
            if old(env)@.wf() {
                lemma_transfer_keeps_accounts(old(env)@, item_number, to);
            }
        }
        Ok(())
    }

    /// Hands item `item_number`, which was never sold, to `to` without a
    /// payment. The initial seller has to authorize it.
    pub fn mint(e: &mut Ledger, item_number: u64, to: AccountId) -> (done: Result<(), SCErrors>)
        ensures
            match done {
                Ok(()) => {
                    &&& old(e)@.mint_error(item_number, to) is None
                    &&& final(e)@ == old(e)@.minted_to(item_number, to)
                },
                Err(error) => {
                    &&& old(e)@.mint_error(item_number, to) == Some(error)
                    &&& final(e)@ == old(e)@
                },
            },
            old(e)@.wf() ==> final(e)@.wf(),
    {
        let core_data = get_core_data(e)?;
        if !is_valid_item_number(&core_data, &item_number) {
            return Err(SCErrors::ItemNumberIsInvalid);
        }
        if is_minted(e, &item_number) {
            return Err(SCErrors::ItemWasAlreadyMinted);
        }
        let new_owner_balance: u128 = get_balance(e, &to);
        if new_owner_balance == u128::MAX {
            return Err(SCErrors::UnexpectedError);
        }
        bump_instance(e);
        e.require_auth(core_data.initial_seller);
        write_balance(e, &to, &(new_owner_balance + 1));
        write_item(e, &Item { number: item_number, for_sale: false, owner: to, price: 0 });
        bump_item(e, &item_number);
        bump_balance(e, &to);
        bump_royalties(e);
        events::mint(e, to, item_number);
        proof {
            if old(e)@.wf() {
                lemma_mint_keeps_accounts(old(e)@, item_number, to);
            }
        }
        Ok(())
    }

    /// Items are indivisible: an amount of them has no decimals.
    pub fn decimals(e: &mut Ledger) -> (decimals: Result<u32, SCErrors>)
        ensures
            match decimals {
                Ok(decimals) => {
                    &&& old(e)@.is_initialized()
                    &&& decimals == 0
                    &&& final(e)@ == old(e)@.bump_instance()
                },
                Err(error) => {
                    &&& error == SCErrors::UnexpectedError
                    &&& !old(e)@.is_initialized()
                    &&& final(e)@ == old(e)@
                },
            },
            old(e)@.wf() ==> final(e)@.wf(),
    {
        get_core_data(e)?;
        bump_instance(e);
        proof {
            if old(e)@.wf() {
                lemma_journal_keeps_accounts(old(e)@, e@);
            }
        }
        Ok(0)
    }

    pub fn name(e: &mut Ledger) -> (name: Result<String, SCErrors>)
        ensures
            match name {
                Ok(name) => {
                    &&& old(e)@.metadata_error() is None
                    &&& name == old(e)@.token_metadata->0.name
                    &&& final(e)@ == old(e)@.bump_instance()
                },
                Err(error) => {
                    &&& old(e)@.metadata_error() == Some(error)
                    &&& final(e)@ == old(e)@
                },
            },
            old(e)@.wf() ==> final(e)@.wf(),
    {
        get_core_data(e)?;
        let metadata = get_metadata(e)?;
        bump_instance(e);
        proof {
            if old(e)@.wf() {
                lemma_journal_keeps_accounts(old(e)@, e@);
            }
        }
        Ok(metadata.name)
    }

    pub fn symbol(e: &mut Ledger) -> (symbol: Result<String, SCErrors>)
        ensures
            match symbol {
                Ok(symbol) => {
                    &&& old(e)@.metadata_error() is None
                    &&& symbol == old(e)@.token_metadata->0.symbol
                    &&& final(e)@ == old(e)@.bump_instance()
                },
                Err(error) => {
                    &&& old(e)@.metadata_error() == Some(error)
                    &&& final(e)@ == old(e)@
                },
            },
            old(e)@.wf() ==> final(e)@.wf(),
    {
        get_core_data(e)?;
        let metadata = get_metadata(e)?;
        bump_instance(e);
        proof {
            if old(e)@.wf() {
                lemma_journal_keeps_accounts(old(e)@, e@);
            }
        }
        Ok(metadata.symbol)
    }

    pub fn metadata_uri(e: &mut Ledger) -> (uri: Result<String, SCErrors>)
        ensures
            match uri {
                Ok(uri) => {
                    &&& old(e)@.metadata_error() is None
                    &&& uri == old(e)@.token_metadata->0.metadata_uri
                    &&& final(e)@ == old(e)@.bump_instance()
                },
                Err(error) => {
                    &&& old(e)@.metadata_error() == Some(error)
                    &&& final(e)@ == old(e)@
                },
            },
            old(e)@.wf() ==> final(e)@.wf(),
    {
        get_core_data(e)?;
        let metadata = get_metadata(e)?;
        bump_instance(e);
        proof {
            if old(e)@.wf() {
                lemma_journal_keeps_accounts(old(e)@, e@);
            }
        }
        Ok(metadata.metadata_uri)
    }

    /// The royalty table, in the order it was given at initialization.
    pub fn royalties(e: &mut Ledger) -> (royalties: Result<Vec<Royalty>, SCErrors>)
        ensures
            match royalties {
                Ok(table) => {
                    &&& old(e)@.is_initialized()
                    &&& old(e)@.royalties == Some(table@)
                    &&& final(e)@ == old(e)@.bump_instance().bump_royalties()
                },
                Err(error) => {
                    &&& error == SCErrors::UnexpectedError
                    &&& !old(e)@.is_initialized() || old(e)@.royalties is None
                    &&& final(e)@ == old(e)@
                },
            },
            old(e)@.wf() ==> final(e)@.wf(),
    {
        get_core_data(e)?;
        let table = get_royalties(e)?;
        bump_instance(e);
        bump_royalties(e);
        proof {
            if old(e)@.wf() {
                lemma_journal_keeps_accounts(old(e)@, e@);
            }
        }
        Ok(table)
    }

    /// The number of items of the collection.
    pub fn supply(e: &mut Ledger) -> (supply: Result<u64, SCErrors>)
        ensures
            match supply {
                Ok(supply) => {
                    &&& old(e)@.core_data is Some
                    &&& supply == old(e)@.core_data->0.supply
                    &&& final(e)@ == old(e)@.bump_instance()
                },
                Err(error) => {
                    &&& error == SCErrors::UnexpectedError
                    &&& old(e)@.core_data is None
                    &&& final(e)@ == old(e)@
                },
            },
            old(e)@.wf() ==> final(e)@.wf(),
    {
        let core_data = get_core_data(e)?;
        bump_instance(e);
        proof {
            if old(e)@.wf() {
                lemma_journal_keeps_accounts(old(e)@, e@);
            }
        }
        Ok(core_data.supply)
    }

    /// The parameters of the collection.
    pub fn core_data(e: &mut Ledger) -> (core_data: Result<CoreData, SCErrors>)
        ensures
            match core_data {
                Ok(core_data) => {
                    &&& old(e)@.core_data == Some(core_data)
                    &&& final(e)@ == old(e)@.bump_instance()
                },
                Err(error) => {
                    &&& error == SCErrors::UnexpectedError
                    &&& old(e)@.core_data is None
                    &&& final(e)@ == old(e)@
                },
            },
            old(e)@.wf() ==> final(e)@.wf(),
    {
        let core_data = get_core_data(e)?;
        bump_instance(e);
        proof {
            if old(e)@.wf() {
                lemma_journal_keeps_accounts(old(e)@, e@);
            }
        }
        Ok(core_data)
    }

    /// The descriptive data of the collection.
    pub fn token_metadata(e: &mut Ledger) -> (metadata: Result<TokenMetadata, SCErrors>)
        ensures
            match metadata {
                Ok(metadata) => {
                    &&& old(e)@.metadata_error() is None
                    &&& old(e)@.token_metadata == Some(metadata)
                    &&& final(e)@ == old(e)@.bump_instance()
                },
                Err(error) => {
                    &&& old(e)@.metadata_error() == Some(error)
                    &&& final(e)@ == old(e)@
                },
            },
            old(e)@.wf() ==> final(e)@.wf(),
    {
        get_core_data(e)?;
        let metadata = get_metadata(e)?;
        bump_instance(e);
        proof {
            if old(e)@.wf() {
                lemma_journal_keeps_accounts(old(e)@, e@);
            }
        }
        Ok(metadata)
    }
}

} // verus!
