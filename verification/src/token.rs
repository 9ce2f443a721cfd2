//! The asset in which sales are paid: balances, allowances with an expiry,
//! and the rights of its administrator.

pub mod contract;
pub mod event;
pub mod state;
