use crate::bumps::{ROYALTIES_BUMP_CONSTANT, ROYALTIES_BUMP_CONSTANT_THRESHOLD};
use crate::errors::SCErrors;
use crate::ledger::{Lease, Ledger, LedgerView, Renewal};
use crate::storage::royalties::{RoyaltiesDataKeys, Royalty};
use vstd::prelude::*;

verus! {

/// The renewal that keeps the royalty table alive.
pub open spec fn royalties_renewal() -> Renewal {
    Renewal {
        lease: Lease::Royalties(RoyaltiesDataKeys::Royalties),
        threshold: ROYALTIES_BUMP_CONSTANT_THRESHOLD,
        extend_to: ROYALTIES_BUMP_CONSTANT,
    }
}

impl LedgerView {
    /// This ledger after the lease of the royalty table was renewed, which
    /// asks for nothing where no table is stored.
    pub open spec fn bump_royalties(self) -> LedgerView {
        if self.royalties is Some {
            self.renewing(royalties_renewal())
        } else {
            self
        }
    }
}

/// A copy of a royalty table, entry by entry.
pub fn copy_table(table: &Vec<Royalty>) -> (copy: Vec<Royalty>)
    ensures
        copy@ == table@,
{
    let mut copy: Vec<Royalty> = Vec::new();
    let mut i: usize = 0;
    while i < table.len()
        invariant
            i <= table.len(),
            copy@ == table@.take(i as int),
        decreases table.len() - i,
    {
        copy.push(table[i].clone());
        assert(table@.take(i + 1) == table@.take(i as int).push(table@[i as int]));
        i = i + 1;
    }
    assert(table@.take(table.len() as int) == table@);
    copy
}

/// Renews the lease of the royalty table, if one is stored.
pub fn bump_royalties(env: &mut Ledger)
    ensures
        final(env)@ == old(env)@.bump_royalties(),
{
    if env.royalties.is_some() {
        env.extend_ttl(
            Lease::Royalties(RoyaltiesDataKeys::Royalties),
            ROYALTIES_BUMP_CONSTANT_THRESHOLD,
            ROYALTIES_BUMP_CONSTANT,
        );
    }
}

/// Stores the royalty table of the collection.
pub fn write_royalties(env: &mut Ledger, royalties: &Vec<Royalty>)
    ensures
        final(env)@ == (LedgerView { royalties: Some(royalties@), ..old(env)@ }),
{
    env.royalties = Some(copy_table(royalties));
}

/// The royalty table of the collection, in the order it was given. It is
/// an internal error to ask for it where none is stored.
pub fn get_royalties(env: &Ledger) -> (royalties: Result<Vec<Royalty>, SCErrors>)
    ensures
        match royalties {
            Ok(table) => env@.royalties == Some(table@),
            Err(error) => error == SCErrors::UnexpectedError && env@.royalties is None,
        },
{
    match &env.royalties {
        Some(table) => Ok(copy_table(table)),
        None => Err(SCErrors::UnexpectedError),
    }
}

} // verus!
