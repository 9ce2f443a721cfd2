//! The records that the marketplace keeps, and the keys under which they
//! are stored.

pub mod balances;
pub mod config;
pub mod items;
pub mod royalties;
