use vstd::prelude::*;

verus! {

/// Why a marketplace operation was rejected. A rejected operation leaves the
/// ledger as it found it.
#[derive(Copy, Clone, Debug, PartialEq, Eq, PartialOrd, Ord, Structural)]
pub enum SCErrors {
    /// An internal failure: a missing configuration entry, an arithmetic
    /// overflow, or a broken accounting invariant.
    UnexpectedError,
    AlreadyInitialized,
    ItemHasNotBeenMinted,
    ItemNumberIsInvalid,
    ItemIsNotForSale,
    ItemWasAlreadyMinted,
}

impl SCErrors {
    /// The numeric code under which the error is reported.
    pub open spec fn spec_code(self) -> u32 {
        match self {
            SCErrors::UnexpectedError => 0,
            SCErrors::AlreadyInitialized => 1,
            SCErrors::ItemHasNotBeenMinted => 2,
            SCErrors::ItemNumberIsInvalid => 3,
            SCErrors::ItemIsNotForSale => 4,
            SCErrors::ItemWasAlreadyMinted => 5,
        }
    }

    #[verifier::when_used_as_spec(spec_code)]
    pub fn code(self) -> (c: u32)
        ensures
            c == self.spec_code(),
    {
        match self {
            SCErrors::UnexpectedError => 0,
            SCErrors::AlreadyInitialized => 1,
            SCErrors::ItemHasNotBeenMinted => 2,
            SCErrors::ItemNumberIsInvalid => 3,
            SCErrors::ItemIsNotForSale => 4,
            SCErrors::ItemWasAlreadyMinted => 5,
        }
    }
}

} // verus!
