use vstd::prelude::*;

verus! {

// Every family of entries has its own lease policy. They share one value
// today and are kept apart so that they can diverge.

pub const DAY_IN_LEDGERS: u32 = 17280;

pub const INSTANCE_BUMP_CONSTANT: u32 = DAY_IN_LEDGERS * 28;

pub const INSTANCE_BUMP_CONSTANT_THRESHOLD: u32 = DAY_IN_LEDGERS * 14;

pub const ROYALTIES_BUMP_CONSTANT: u32 = DAY_IN_LEDGERS * 28;

pub const ROYALTIES_BUMP_CONSTANT_THRESHOLD: u32 = DAY_IN_LEDGERS * 14;

pub const BALANCES_BUMP_CONSTANT: u32 = DAY_IN_LEDGERS * 28;

pub const BALANCES_BUMP_CONSTANT_THRESHOLD: u32 = DAY_IN_LEDGERS * 14;

pub const ITEMS_BUMP_CONSTANT: u32 = DAY_IN_LEDGERS * 28;

pub const ITEMS_BUMP_CONSTANT_THRESHOLD: u32 = DAY_IN_LEDGERS * 14;

} // verus!
