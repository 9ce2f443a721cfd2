use crate::storage::balances::AccountId;
use crate::token::state::{TokenEvent, TokenLedger};
use vstd::prelude::*;

verus! {

pub fn approve(
    env: &mut TokenLedger,
    from: AccountId,
    to: AccountId,
    amount: i128,
    expiration_ledger: u32,
)
    ensures
        final(env)@ == old(env)@.publishing(
            TokenEvent::Approve { from, to, amount, expiration_ledger },
        ),
{
    env.publish(TokenEvent::Approve { from, to, amount, expiration_ledger });
}

pub fn transfer(env: &mut TokenLedger, from: AccountId, to: AccountId, amount: i128)
    ensures
        final(env)@ == old(env)@.publishing(TokenEvent::Transfer { from, to, amount }),
{
    env.publish(TokenEvent::Transfer { from, to, amount });
}

pub fn mint(env: &mut TokenLedger, admin: AccountId, to: AccountId, amount: i128)
    ensures
        final(env)@ == old(env)@.publishing(TokenEvent::Mint { admin, to, amount }),
{
    env.publish(TokenEvent::Mint { admin, to, amount });
}

pub fn clawback(env: &mut TokenLedger, admin: AccountId, from: AccountId, amount: i128)
    ensures
        final(env)@ == old(env)@.publishing(TokenEvent::Clawback { admin, from, amount }),
{
    env.publish(TokenEvent::Clawback { admin, from, amount });
}

pub fn set_authorized(env: &mut TokenLedger, admin: AccountId, id: AccountId, authorize: bool)
    ensures
        final(env)@ == old(env)@.publishing(TokenEvent::SetAuthorized { admin, id, authorize }),
{
    env.publish(TokenEvent::SetAuthorized { admin, id, authorize });
}

pub fn set_admin(env: &mut TokenLedger, admin: AccountId, new_admin: AccountId)
    ensures
        final(env)@ == old(env)@.publishing(TokenEvent::SetAdmin { admin, new_admin }),
{
    env.publish(TokenEvent::SetAdmin { admin, new_admin });
}

pub fn burn(env: &mut TokenLedger, from: AccountId, amount: i128)
    ensures
        final(env)@ == old(env)@.publishing(TokenEvent::Burn { from, amount }),
{
    env.publish(TokenEvent::Burn { from, amount });
}

} // verus!
