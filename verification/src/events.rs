use crate::ledger::{Event, Ledger};
use crate::storage::balances::AccountId;
use vstd::prelude::*;

verus! {

/// Publishes the record of a sale.
pub fn buy(env: &mut Ledger, seller: AccountId, buyer: AccountId, item_id: u64, price: u128)
    ensures
        final(env)@ == old(env)@.publishing(Event::Buy { seller, buyer, item_id, price }),
{
    env.publish(Event::Buy { seller, buyer, item_id, price });
}

/// Publishes the record of a listing, or of its withdrawal at price 0.
pub fn sell(env: &mut Ledger, seller: AccountId, item_id: u64, price: u128)
    ensures
        final(env)@ == old(env)@.publishing(Event::Sell { seller, item_id, price }),
{
    env.publish(Event::Sell { seller, item_id, price });
}

/// Publishes the record of a change of owner without a sale.
pub fn transfer(env: &mut Ledger, from: AccountId, to: AccountId, item_id: u64)
    ensures
        final(env)@ == old(env)@.publishing(Event::Transfer { from, to, item_id }),
{
    env.publish(Event::Transfer { from, to, item_id });
}

/// Publishes the record of an item handed out by the initial seller.
pub fn mint(env: &mut Ledger, to: AccountId, item_id: u64)
    ensures
        final(env)@ == old(env)@.publishing(Event::Mint { to, item_id }),
{
    env.publish(Event::Mint { to, item_id });
}

/// Publishes the record of a payment to a royalty recipient.
pub fn royalty_payment(env: &mut Ledger, item_id: u64, to: AccountId, amount: u128)
    ensures
        final(env)@ == old(env)@.publishing(Event::RoyaltyPayment { item_id, to, amount }),
{
    env.publish(Event::RoyaltyPayment { item_id, to, amount });
}

} // verus!
