use crate::accounting::lemma_empty_is_well_formed;
use crate::storage::balances::{AccountId, BalancesDataKeys};
use crate::storage::config::{CoreData, CoreDataKeys, TokenMetadata};
use crate::storage::items::{Item, ItemsDataKeys};
use crate::storage::royalties::{RoyaltiesDataKeys, Royalty};
use std::collections::HashMap;
use vstd::prelude::*;

verus! {

broadcast use vstd::std_specs::hash::group_hash_axioms;

/// A transfer of the collection's currency that an operation asks for.
#[derive(Copy, Clone, Debug, PartialEq, Eq, Structural)]
pub struct Payment {
    pub from: AccountId,
    pub to: AccountId,
    pub amount: i128,
}

/// A record that an operation publishes.
#[derive(Copy, Clone, Debug, PartialEq, Eq, Structural)]
pub enum Event {
    Buy { seller: AccountId, buyer: AccountId, item_id: u64, price: u128 },
    Sell { seller: AccountId, item_id: u64, price: u128 },
    Transfer { from: AccountId, to: AccountId, item_id: u64 },
    Mint { to: AccountId, item_id: u64 },
    RoyaltyPayment { item_id: u64, to: AccountId, amount: u128 },
}

/// What a lease keeps alive.
#[derive(Copy, Clone, Debug, PartialEq, Eq, Structural)]
pub enum Lease {
    /// The configuration of the collection.
    Instance,
    Royalties(RoyaltiesDataKeys),
    Balance(BalancesDataKeys),
    Item(ItemsDataKeys),
}

/// A request to keep an entry alive for `extend_to` further ledgers, made
/// once fewer than `threshold` of them remain.
#[derive(Copy, Clone, Debug, PartialEq, Eq, Structural)]
pub struct Renewal {
    pub lease: Lease,
    pub threshold: u32,
    pub extend_to: u32,
}

/// The entries of one collection, and the journal of what its operations
/// ask of the host: whose authorization to check, which payments to make,
/// which records to publish and which leases to renew.
pub struct Ledger {
    pub core_data: Option<CoreData>,
    pub token_metadata: Option<TokenMetadata>,
    pub royalties: Option<Vec<Royalty>>,
    pub items: HashMap<u64, Item>,
    pub balances: HashMap<AccountId, u128>,
    pub authorizations: Vec<AccountId>,
    pub payments: Vec<Payment>,
    pub events: Vec<Event>,
    pub renewals: Vec<Renewal>,
}

/// A ledger as a mathematical value.
pub struct LedgerView {
    pub core_data: Option<CoreData>,
    pub token_metadata: Option<TokenMetadata>,
    pub royalties: Option<Seq<Royalty>>,
    pub items: Map<u64, Item>,
    pub balances: Map<AccountId, u128>,
    pub authorizations: Seq<AccountId>,
    pub payments: Seq<Payment>,
    pub events: Seq<Event>,
    pub renewals: Seq<Renewal>,
}

impl View for Ledger {
    type V = LedgerView;

    open spec fn view(&self) -> LedgerView {
        LedgerView {
            core_data: self.core_data,
            token_metadata: self.token_metadata,
            royalties: match self.royalties {
                Some(table) => Some(table@),
                None => None,
            },
            items: self.items@,
            balances: self.balances@,
            authorizations: self.authorizations@,
            payments: self.payments@,
            events: self.events@,
            renewals: self.renewals@,
        }
    }
}

impl LedgerView {
    /// The ledger of a collection that was never initialized.
    pub open spec fn empty() -> LedgerView {
        LedgerView {
            core_data: None,
            token_metadata: None,
            royalties: None,
            items: Map::empty(),
            balances: Map::empty(),
            authorizations: Seq::empty(),
            payments: Seq::empty(),
            events: Seq::empty(),
            renewals: Seq::empty(),
        }
    }

    /// Whether an entry is stored under a key of the configuration.
    pub open spec fn has_instance_entry(self, key: CoreDataKeys) -> bool {
        match key {
            CoreDataKeys::CoreData => self.core_data is Some,
            CoreDataKeys::TokenMetadata => self.token_metadata is Some,
        }
    }

    /// This ledger with one more authorization to check.
    pub open spec fn authorized_by(self, account: AccountId) -> LedgerView {
        LedgerView { authorizations: self.authorizations.push(account), ..self }
    }

    /// This ledger with one more payment to make.
    pub open spec fn paying(self, payment: Payment) -> LedgerView {
        LedgerView { payments: self.payments.push(payment), ..self }
    }

    /// This ledger with one more record to publish.
    pub open spec fn publishing(self, event: Event) -> LedgerView {
        LedgerView { events: self.events.push(event), ..self }
    }

    /// This ledger with one more lease to renew.
    pub open spec fn renewing(self, renewal: Renewal) -> LedgerView {
        LedgerView { renewals: self.renewals.push(renewal), ..self }
    }
}

impl Ledger {
    /// The ledger of a collection that was never initialized.
    pub fn new() -> (ledger: Ledger)
        ensures
            ledger@ == LedgerView::empty(),
            ledger@.wf(),
    {
        proof {
            lemma_empty_is_well_formed();
        }
        let ledger = Ledger {
            core_data: None,
            token_metadata: None,
            royalties: None,
            items: HashMap::new(),
            balances: HashMap::new(),
            authorizations: Vec::new(),
            payments: Vec::new(),
            events: Vec::new(),
            renewals: Vec::new(),
        };
        assert(ledger@.items =~= Map::empty());
        assert(ledger@.balances =~= Map::empty());
        ledger
    }

    /// Whether an entry is stored under a key of the configuration.
    pub fn has_instance_entry(&self, key: CoreDataKeys) -> (stored: bool)
        ensures
            stored == self@.has_instance_entry(key),
    {
        match key {
            CoreDataKeys::CoreData => self.core_data.is_some(),
            CoreDataKeys::TokenMetadata => self.token_metadata.is_some(),
        }
    }

    /// Notes that an operation needs the authorization of `account`.
    pub fn require_auth(&mut self, account: AccountId)
        ensures
            final(self)@ == old(self)@.authorized_by(account),
    {
        self.authorizations.push(account);
    }

    /// Notes a payment that the operation asks for.
    pub fn pay(&mut self, payment: Payment)
        ensures
            final(self)@ == old(self)@.paying(payment),
    {
        self.payments.push(payment);
    }

    /// Notes a record that the operation publishes.
    pub fn publish(&mut self, event: Event)
        ensures
            final(self)@ == old(self)@.publishing(event),
    {
        self.events.push(event);
    }

    /// Notes a lease that the operation renews.
    pub fn extend_ttl(&mut self, lease: Lease, threshold: u32, extend_to: u32)
        ensures
            final(self)@ == old(self)@.renewing(Renewal { lease, threshold, extend_to }),
    {
        self.renewals.push(Renewal { lease, threshold, extend_to });
    }
}

} // verus!
