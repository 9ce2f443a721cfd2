//! Reading, writing and keeping alive the entries of each store.

pub mod balances;
pub mod config;
pub mod items;
pub mod royalties;
