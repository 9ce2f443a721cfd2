//! A fixed-supply collectible marketplace: numbered items with one owner each,
//! first sales and resales, and the split of every sale between the seller and
//! the royalty recipients.
//!
//! The marketplace ([`contract`]) runs against a [`ledger::Ledger`], which
//! holds the stored entries and journals what an operation asks of its host:
//! authorizations to check, payments to make, event records to publish and
//! leases to renew. An operation either succeeds or leaves the ledger as it
//! found it. [`accounting`] says what a well-formed ledger is and shows that
//! every operation keeps it so; [`guarantees`] holds what follows for the
//! buyers, sellers and royalty recipients.
//!
//! Beside the marketplace stand the rules of its collaborators: the asset in
//! which sales are paid ([`token`]), a standing offer of one asset for another
//! ([`offer`]) and the royalty terms of an asset ([`royalty_index`]).

pub mod accounting;
pub mod bumps;
pub mod contract;
pub mod errors;
pub mod events;
pub mod guarantees;
pub mod ledger;
pub mod offer;
pub mod royalty_index;
pub mod royalty_math;
pub mod storage;
pub mod token;
pub mod utils;
