use crate::storage::balances::AccountId;
use std::collections::HashMap;
use vstd::prelude::*;

verus! {

broadcast use vstd::std_specs::hash::group_hash_axioms;

/// Why an operation of the asset was rejected. A rejected operation leaves
/// the asset as it found it.
#[derive(Copy, Clone, Debug, PartialEq, Eq, Structural)]
pub enum TokenError {
    AlreadyInitialized,
    NotInitialized,
    /// The number of decimals does not fit in a byte.
    DecimalTooLarge,
    NegativeAmount,
    InsufficientBalance,
    InsufficientAllowance,
    /// The account that receives was deauthorized.
    ReceiverDeauthorized,
    /// The account that spends was deauthorized.
    SpenderDeauthorized,
    /// An allowance above 0 was given an expiry that has passed.
    ExpiredAllowance,
    /// A balance or an allowance would leave the range of amounts.
    Overflow,
    NoRoyaltyData,
    NoRoyaltyRecipient,
}

impl TokenError {
    /// The error in words.
    pub fn message(&self) -> (message: &'static str)
        ensures
            message@ == match *self {
                TokenError::AlreadyInitialized => "already initialized"@,
                TokenError::NotInitialized => "not initialized"@,
                TokenError::DecimalTooLarge => "Decimal must fit in a u8"@,
                TokenError::NegativeAmount => "negative amount is not allowed"@,
                TokenError::InsufficientBalance => "insufficient balance"@,
                TokenError::InsufficientAllowance => "insufficient allowance"@,
                TokenError::ReceiverDeauthorized => "can't receive when deauthorized"@,
                TokenError::SpenderDeauthorized => "can't spend when deauthorized"@,
                TokenError::ExpiredAllowance =>
                    "expiration_ledger is less than ledger seq when amount > 0"@,
                TokenError::Overflow => "amount out of range"@,
                TokenError::NoRoyaltyData => "no royalty data"@,
                TokenError::NoRoyaltyRecipient => "no royalty recipient"@,
            },
    {
        match self {
            TokenError::AlreadyInitialized => "already initialized",
            TokenError::NotInitialized => "not initialized",
            TokenError::DecimalTooLarge => "Decimal must fit in a u8",
            TokenError::NegativeAmount => "negative amount is not allowed",
            TokenError::InsufficientBalance => "insufficient balance",
            TokenError::InsufficientAllowance => "insufficient allowance",
            TokenError::ReceiverDeauthorized => "can't receive when deauthorized",
            TokenError::SpenderDeauthorized => "can't spend when deauthorized",
            TokenError::ExpiredAllowance =>
                "expiration_ledger is less than ledger seq when amount > 0",
            TokenError::Overflow => "amount out of range",
            TokenError::NoRoyaltyData => "no royalty data",
            TokenError::NoRoyaltyRecipient => "no royalty recipient",
        }
    }
}

/// Who may spend whose funds.
#[derive(Copy, Clone, Debug, PartialEq, Eq, Structural)]
pub struct AllowanceDataKey {
    pub from: AccountId,
    pub spender: AccountId,
}

/// What a spender may still spend, and up to which ledger.
#[derive(Copy, Clone, Debug, PartialEq, Eq, Structural)]
pub struct AllowanceValue {
    pub amount: i128,
    pub expiration_ledger: u32,
}

/// The keys under which the asset keeps its entries.
#[derive(Copy, Clone, Debug, PartialEq, Eq, Structural)]
pub enum DataKey {
    Allowance(AllowanceDataKey),
    Balance(AccountId),
    State(AccountId),
    Admin,
    RoyaltyR,
    RoyaltyP,
}

/// Descriptive data of the asset.
#[derive(Debug)]
pub struct TokenMetadata {
    pub decimal: u32,
    pub name: String,
    pub symbol: String,
}

impl Clone for TokenMetadata {
    fn clone(&self) -> (copy: Self)
        ensures
            copy == *self,
    {
        TokenMetadata {
            decimal: self.decimal,
            name: self.name.clone(),
            symbol: self.symbol.clone(),
        }
    }
}

/// A record that an operation of the asset publishes.
#[derive(Copy, Clone, Debug, PartialEq, Eq, Structural)]
pub enum TokenEvent {
    Approve { from: AccountId, to: AccountId, amount: i128, expiration_ledger: u32 },
    Transfer { from: AccountId, to: AccountId, amount: i128 },
    Mint { admin: AccountId, to: AccountId, amount: i128 },
    Clawback { admin: AccountId, from: AccountId, amount: i128 },
    SetAuthorized { admin: AccountId, id: AccountId, authorize: bool },
    SetAdmin { admin: AccountId, new_admin: AccountId },
    Burn { from: AccountId, amount: i128 },
}

/// A request to keep an allowance alive for `ledgers` further ledgers.
#[derive(Copy, Clone, Debug, PartialEq, Eq, Structural)]
pub struct AllowanceLease {
    pub key: AllowanceDataKey,
    pub ledgers: u32,
}

/// The number under which the allowance of a pair of accounts is kept.
pub open spec fn allowance_index(key: AllowanceDataKey) -> u128 {
    (key.from * 0x1_0000_0000_0000_0000 + key.spender) as u128
}

/// Two pairs of accounts never share a number.
pub proof fn lemma_allowance_index_is_injective(first: AllowanceDataKey, second: AllowanceDataKey)
    requires
        allowance_index(first) == allowance_index(second),
    ensures
        first == second,
{
}

impl AllowanceDataKey {
    /// The number under which the allowance of this pair is kept.
    pub fn index(&self) -> (index: u128)
        ensures
            index == allowance_index(*self),
    {
        let from: u128 = self.from as u128;
        let spender: u128 = self.spender as u128;
        from * 0x1_0000_0000_0000_0000 + spender
    }
}

/// The entries of one asset, the number of the current ledger, and the
/// journal of what its operations ask of the host.
pub struct TokenLedger {
    pub admin: Option<AccountId>,
    pub metadata: Option<TokenMetadata>,
    pub royalty_recipient: Option<AccountId>,
    pub royalty_rate: Option<u32>,
    pub balances: HashMap<AccountId, i128>,
    pub states: HashMap<AccountId, bool>,
    pub allowances: HashMap<u128, AllowanceValue>,
    pub sequence: u32,
    pub authorizations: Vec<AccountId>,
    pub events: Vec<TokenEvent>,
    pub leases: Vec<AllowanceLease>,
}

/// The ledger of an asset as a mathematical value.
pub struct TokenLedgerView {
    pub admin: Option<AccountId>,
    pub metadata: Option<TokenMetadata>,
    pub royalty_recipient: Option<AccountId>,
    pub royalty_rate: Option<u32>,
    pub balances: Map<AccountId, i128>,
    pub states: Map<AccountId, bool>,
    pub allowances: Map<u128, AllowanceValue>,
    pub sequence: u32,
    pub authorizations: Seq<AccountId>,
    pub events: Seq<TokenEvent>,
    pub leases: Seq<AllowanceLease>,
}

impl View for TokenLedger {
    type V = TokenLedgerView;

    open spec fn view(&self) -> TokenLedgerView {
        TokenLedgerView {
            admin: self.admin,
            metadata: self.metadata,
            royalty_recipient: self.royalty_recipient,
            royalty_rate: self.royalty_rate,
            balances: self.balances@,
            states: self.states@,
            allowances: self.allowances@,
            sequence: self.sequence,
            authorizations: self.authorizations@,
            events: self.events@,
            leases: self.leases@,
        }
    }
}

impl TokenLedgerView {
    /// The ledger of an asset that was never initialized, at ledger 0.
    pub open spec fn empty() -> TokenLedgerView {
        TokenLedgerView {
            admin: None,
            metadata: None,
            royalty_recipient: None,
            royalty_rate: None,
            balances: Map::empty(),
            states: Map::empty(),
            allowances: Map::empty(),
            sequence: 0,
            authorizations: Seq::empty(),
            events: Seq::empty(),
            leases: Seq::empty(),
        }
    }

    /// This ledger with one more authorization to check.
    pub open spec fn authorized_by(self, account: AccountId) -> TokenLedgerView {
        TokenLedgerView { authorizations: self.authorizations.push(account), ..self }
    }

    /// This ledger with one more record to publish.
    pub open spec fn publishing(self, event: TokenEvent) -> TokenLedgerView {
        TokenLedgerView { events: self.events.push(event), ..self }
    }
}

impl TokenLedger {
    /// The ledger of an asset that was never initialized, at ledger 0.
    pub fn new() -> (ledger: TokenLedger)
        ensures
            ledger@ == TokenLedgerView::empty(),
    {
        let ledger = TokenLedger {
            admin: None,
            metadata: None,
            royalty_recipient: None,
            royalty_rate: None,
            balances: HashMap::new(),
            states: HashMap::new(),
            allowances: HashMap::new(),
            sequence: 0,
            authorizations: Vec::new(),
            events: Vec::new(),
            leases: Vec::new(),
        };
        assert(ledger@.balances =~= Map::empty());
        assert(ledger@.states =~= Map::empty());
        assert(ledger@.allowances =~= Map::empty());
        ledger
    }

    /// Notes that an operation needs the authorization of `account`.
    pub fn require_auth(&mut self, account: AccountId)
        ensures
            final(self)@ == old(self)@.authorized_by(account),
    {
        self.authorizations.push(account);
    }

    /// Notes a record that the operation publishes.
    pub fn publish(&mut self, event: TokenEvent)
        ensures
            final(self)@ == old(self)@.publishing(event),
    {
        self.events.push(event);
    }
}

} // verus!
