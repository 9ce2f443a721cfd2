//! The royalty terms of an asset, set once by its issuer for others to
//! look up.

use crate::storage::balances::AccountId;
use vstd::prelude::*;

verus! {

#[derive(Copy, Clone, Debug, PartialEq, Eq, PartialOrd, Ord, Structural)]
pub enum Error {
    ContractAlreadyInitialized,
    ContractNotInitialized,
    InvalidAuth,
    InvalidArguments,
}

impl Error {
    /// The numeric code under which the error is reported.
    pub fn code(self) -> (code: u32)
        ensures
            code == match self {
                Error::ContractAlreadyInitialized => 1u32,
                Error::ContractNotInitialized => 2u32,
                Error::InvalidAuth => 3u32,
                Error::InvalidArguments => 4u32,
            },
    {
        match self {
            Error::ContractAlreadyInitialized => 1,
            Error::ContractNotInitialized => 2,
            Error::InvalidAuth => 3,
            Error::InvalidArguments => 4,
        }
    }
}

/// The keys under which the terms are kept.
#[derive(Copy, Clone, Debug, PartialEq, Eq, Structural)]
pub enum StorageKey {
    Issuer,
    Asset,
    Recipient,
    Pct,
}

/// The royalty terms of an asset.
#[derive(Copy, Clone, Debug, PartialEq, Eq, Structural)]
pub struct RoyaltyTerms {
    /// Who issued the asset.
    pub issuer: AccountId,
    pub asset: AccountId,
    /// Who is paid the royalty.
    pub recipient: AccountId,
    /// The royalty, in percent.
    pub pct: u32,
}

/// The terms that were set, if any, and whose authorization the host has
/// to check.
pub struct RoyaltyIndex {
    pub terms: Option<RoyaltyTerms>,
    pub authorizations: Vec<AccountId>,
}

/// The index as a mathematical value.
pub struct RoyaltyIndexView {
    pub terms: Option<RoyaltyTerms>,
    pub authorizations: Seq<AccountId>,
}

impl View for RoyaltyIndex {
    type V = RoyaltyIndexView;

    open spec fn view(&self) -> RoyaltyIndexView {
        RoyaltyIndexView { terms: self.terms, authorizations: self.authorizations@ }
    }
}

impl RoyaltyIndex {
    /// An index without terms.
    pub fn new() -> (index: RoyaltyIndex)
        ensures
            index@ == (RoyaltyIndexView { terms: None, authorizations: Seq::empty() }),
    {
        RoyaltyIndex { terms: None, authorizations: Vec::new() }
    }

    /// Whether an entry is kept under a key. The four entries are set
    /// together.
    pub fn has(&self, key: StorageKey) -> (stored: bool)
        ensures
            stored == self@.terms is Some,
    {
        self.terms.is_some()
    }
}

pub struct RoyaltyIndexContract;

impl RoyaltyIndexContract {
    /// Sets the royalty terms of an asset, once. The issuer has to
    /// authorize it.
    pub fn set(
        e: &mut RoyaltyIndex,
        issuer: AccountId,
        asset: AccountId,
        recipient: AccountId,
        pct: u32,
    ) -> (done: Result<(), Error>)
        ensures
            match done {
                Ok(()) => {
                    &&& old(e)@.terms is None
                    &&& final(e)@ == (RoyaltyIndexView {
                        terms: Some(RoyaltyTerms { issuer, asset, recipient, pct }),
                        authorizations: old(e)@.authorizations.push(issuer),
                    })
                },
                Err(error) => {
                    &&& error == Error::ContractAlreadyInitialized
                    &&& old(e)@.terms is Some
                    &&& final(e)@ == old(e)@
                },
            },
    {
        if e.has(StorageKey::Asset) {
            return Err(Error::ContractAlreadyInitialized);
        }
        e.authorizations.push(issuer);
        e.terms = Some(RoyaltyTerms { issuer, asset, recipient, pct });
        Ok(())
    }

    /// The royalty terms: issuer, asset, recipient and percentage.
    pub fn get(e: &RoyaltyIndex) -> (terms: Result<(AccountId, AccountId, AccountId, u32), Error>)
        ensures
            terms == match e@.terms {
                Some(terms) => Ok::<(AccountId, AccountId, AccountId, u32), Error>(
                    (terms.issuer, terms.asset, terms.recipient, terms.pct),
                ),
                None => Err(Error::ContractNotInitialized),
            },
    {
        match e.terms {
            Some(terms) => Ok((terms.issuer, terms.asset, terms.recipient, terms.pct)),
            None => Err(Error::ContractNotInitialized),
        }
    }
}

} // verus!
