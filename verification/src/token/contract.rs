use crate::storage::balances::AccountId;
use crate::token::event;
use crate::token::state::{
    allowance_index, AllowanceDataKey, AllowanceLease, AllowanceValue, TokenError, TokenEvent,
    TokenLedger, TokenLedgerView, TokenMetadata,
};
use vstd::prelude::*;

verus! {

broadcast use vstd::std_specs::hash::group_hash_axioms;

impl TokenLedgerView {
    /// The funds of an account: 0 where it has no record.
    pub open spec fn balance_of(self, addr: AccountId) -> i128 {
        if self.balances.contains_key(addr) {
            self.balances[addr]
        } else {
            0
        }
    }

    /// Whether an account may spend and receive. It may, unless the
    /// administrator said otherwise.
    pub open spec fn is_authorized(self, addr: AccountId) -> bool {
        self.states.contains_key(addr) ==> self.states[addr]
    }

    /// What `spender` may spend of the funds of `from`. An allowance whose
    /// expiry has passed is worth nothing.
    pub open spec fn allowance_of(self, from: AccountId, spender: AccountId) -> AllowanceValue {
        let index = allowance_index(AllowanceDataKey { from, spender });
        if self.allowances.contains_key(index) {
            let stored = self.allowances[index];
            if stored.expiration_ledger < self.sequence {
                AllowanceValue { amount: 0, expiration_ledger: stored.expiration_ledger }
            } else {
                stored
            }
        } else {
            AllowanceValue { amount: 0, expiration_ledger: 0 }
        }
    }

    /// This ledger after the funds of `addr` were overwritten.
    pub open spec fn with_balance(self, addr: AccountId, amount: i128) -> TokenLedgerView {
        TokenLedgerView { balances: self.balances.insert(addr, amount), ..self }
    }

    /// Why `addr` cannot receive `amount`, if it cannot.
    pub open spec fn receive_error(self, addr: AccountId, amount: i128) -> Option<TokenError> {
        if !self.is_authorized(addr) {
            Some(TokenError::ReceiverDeauthorized)
        } else if !(i128::MIN <= self.balance_of(addr) + amount <= i128::MAX) {
            Some(TokenError::Overflow)
        } else {
            None
        }
    }

    /// This ledger after `addr` received `amount`.
    pub open spec fn received(self, addr: AccountId, amount: i128) -> TokenLedgerView {
        self.with_balance(addr, (self.balance_of(addr) + amount) as i128)
    }

    /// Why `addr` cannot spend `amount`, if it cannot.
    pub open spec fn spend_error(self, addr: AccountId, amount: i128) -> Option<TokenError> {
        if !self.is_authorized(addr) {
            Some(TokenError::SpenderDeauthorized)
        } else if self.balance_of(addr) < amount {
            Some(TokenError::InsufficientBalance)
        } else if self.balance_of(addr) - amount > i128::MAX {
            Some(TokenError::Overflow)
        } else {
            None
        }
    }

    /// This ledger after `addr` spent `amount`.
    pub open spec fn spent(self, addr: AccountId, amount: i128) -> TokenLedgerView {
        self.with_balance(addr, (self.balance_of(addr) - amount) as i128)
    }

    /// Why an allowance cannot be stored, if it cannot.
    pub open spec fn allowance_error(self, amount: i128, expiration_ledger: u32) -> Option<
        TokenError,
    > {
        if amount > 0 && expiration_ledger < self.sequence {
            Some(TokenError::ExpiredAllowance)
        } else {
            None
        }
    }

    /// This ledger after an allowance was stored. One above 0 is kept alive
    /// up to its expiry.
    pub open spec fn with_allowance(
        self,
        from: AccountId,
        spender: AccountId,
        amount: i128,
        expiration_ledger: u32,
    ) -> TokenLedgerView {
        let key = AllowanceDataKey { from, spender };
        TokenLedgerView {
            allowances: self.allowances.insert(
                allowance_index(key),
                AllowanceValue { amount, expiration_ledger },
            ),
            leases: if amount > 0 {
                self.leases.push(
                    AllowanceLease { key, ledgers: (expiration_ledger - self.sequence) as u32 },
                )
            } else {
                self.leases
            },
            ..self
        }
    }

    /// Why `spender` cannot spend `amount` of the funds of `from`, if it
    /// cannot.
    pub open spec fn spend_allowance_error(
        self,
        from: AccountId,
        spender: AccountId,
        amount: i128,
    ) -> Option<TokenError> {
        let allowance = self.allowance_of(from, spender);
        if allowance.amount < amount {
            Some(TokenError::InsufficientAllowance)
        } else if allowance.amount - amount > i128::MAX {
            Some(TokenError::Overflow)
        } else {
            self.allowance_error(
                (allowance.amount - amount) as i128,
                allowance.expiration_ledger,
            )
        }
    }

    /// This ledger after `spender` spent `amount` of its allowance.
    pub open spec fn with_allowance_spent(
        self,
        from: AccountId,
        spender: AccountId,
        amount: i128,
    ) -> TokenLedgerView {
        let allowance = self.allowance_of(from, spender);
        self.with_allowance(
            from,
            spender,
            (allowance.amount - amount) as i128,
            allowance.expiration_ledger,
        )
    }

    /// Why the asset cannot be initialized, if it cannot.
    pub open spec fn initialize_error(self, decimal: u32) -> Option<TokenError> {
        if self.admin is Some {
            Some(TokenError::AlreadyInitialized)
        } else if decimal > u8::MAX {
            Some(TokenError::DecimalTooLarge)
        } else {
            None
        }
    }

    /// Why `from` cannot hand `amount` to `to`, if it cannot.
    pub open spec fn transfer_error(self, from: AccountId, to: AccountId, amount: i128) -> Option<
        TokenError,
    > {
        if amount < 0 {
            Some(TokenError::NegativeAmount)
        } else if self.spend_error(from, amount) is Some {
            self.spend_error(from, amount)
        } else {
            self.spent(from, amount).receive_error(to, amount)
        }
    }

    /// This ledger after `amount` moved from `from` to `to`.
    pub open spec fn moved(self, from: AccountId, to: AccountId, amount: i128) -> TokenLedgerView {
        self.spent(from, amount).received(to, amount).publishing(
            TokenEvent::Transfer { from, to, amount },
        )
    }

    /// Why `spender` cannot hand `amount` of the funds of `from` to `to`,
    /// if it cannot.
    pub open spec fn transfer_from_error(
        self,
        spender: AccountId,
        from: AccountId,
        to: AccountId,
        amount: i128,
    ) -> Option<TokenError> {
        if amount < 0 {
            Some(TokenError::NegativeAmount)
        } else if self.spend_allowance_error(from, spender, amount) is Some {
            self.spend_allowance_error(from, spender, amount)
        } else if self.spend_error(from, amount) is Some {
            self.spend_error(from, amount)
        } else {
            self.spent(from, amount).receive_error(to, amount)
        }
    }

    /// Why `amount` of the funds of `from` cannot be burnt, if it cannot.
    pub open spec fn burn_error(self, from: AccountId, amount: i128) -> Option<TokenError> {
        if amount < 0 {
            Some(TokenError::NegativeAmount)
        } else {
            self.spend_error(from, amount)
        }
    }

    /// Why `spender` cannot burn `amount` of the funds of `from`, if it
    /// cannot.
    pub open spec fn burn_from_error(self, spender: AccountId, from: AccountId, amount: i128)
        -> Option<TokenError> {
        if amount < 0 {
            Some(TokenError::NegativeAmount)
        } else if self.spend_allowance_error(from, spender, amount) is Some {
            self.spend_allowance_error(from, spender, amount)
        } else {
            self.spend_error(from, amount)
        }
    }

    /// Why the administrator cannot take `amount` back from `from`, if it
    /// cannot.
    pub open spec fn clawback_error(self, from: AccountId, amount: i128) -> Option<TokenError> {
        if amount < 0 {
            Some(TokenError::NegativeAmount)
        } else if self.admin is None {
            Some(TokenError::NotInitialized)
        } else {
            self.spend_error(from, amount)
        }
    }

    /// Why the administrator cannot issue `amount` to `to`, if it cannot.
    pub open spec fn mint_error(self, to: AccountId, amount: i128) -> Option<TokenError> {
        if amount < 0 {
            Some(TokenError::NegativeAmount)
        } else if self.admin is None {
            Some(TokenError::NotInitialized)
        } else {
            self.receive_error(to, amount)
        }
    }

    /// Why an allowance cannot be approved, if it cannot.
    pub open spec fn approve_error(self, amount: i128, expiration_ledger: u32) -> Option<
        TokenError,
    > {
        if amount < 0 {
            Some(TokenError::NegativeAmount)
        } else {
            self.allowance_error(amount, expiration_ledger)
        }
    }
}

/// Rejects an amount below 0.
pub fn check_nonnegative_amount(amount: i128) -> (checked: Result<(), TokenError>)
    ensures
        checked == if amount < 0 {
            Err::<(), TokenError>(TokenError::NegativeAmount)
        } else {
            Ok(())
        },
{
    if amount < 0 {
        Err(TokenError::NegativeAmount)
    } else {
        Ok(())
    }
}

/// The funds of an account: 0 where it has no record.
pub fn read_balance(env: &TokenLedger, addr: AccountId) -> (balance: i128)
    ensures
        balance == env@.balance_of(addr),
{
    match env.balances.get(&addr) {
        Some(balance) => *balance,
        None => 0,
    }
}

fn write_balance(env: &mut TokenLedger, addr: AccountId, amount: i128)
    ensures
        final(env)@ == old(env)@.with_balance(addr, amount),
{
    env.balances.insert(addr, amount);
}

/// Adds `amount` to the funds of an account, unless it was deauthorized.
pub fn receive_balance(env: &mut TokenLedger, addr: AccountId, amount: i128) -> (done: Result<
    (),
    TokenError,
>)
    ensures
        match done {
            Ok(()) => {
                &&& old(env)@.receive_error(addr, amount) is None
                &&& final(env)@ == old(env)@.received(addr, amount)
            },
            Err(error) => {
                &&& old(env)@.receive_error(addr, amount) == Some(error)
                &&& final(env)@ == old(env)@
            },
        },
{
    let balance = read_balance(env, addr);
    if !is_authorized(env, addr) {
        return Err(TokenError::ReceiverDeauthorized);
    }
    match balance.checked_add(amount) {
        Some(sum) => {
            write_balance(env, addr, sum);
            Ok(())
        },
        None => Err(TokenError::Overflow),
    }
}

/// Takes `amount` from the funds of an account, which must hold as much
/// and must not have been deauthorized.
pub fn spend_balance(env: &mut TokenLedger, addr: AccountId, amount: i128) -> (done: Result<
    (),
    TokenError,
>)
    ensures
        match done {
            Ok(()) => {
                &&& old(env)@.spend_error(addr, amount) is None
                &&& final(env)@ == old(env)@.spent(addr, amount)
            },
            Err(error) => {
                &&& old(env)@.spend_error(addr, amount) == Some(error)
                &&& final(env)@ == old(env)@
            },
        },
{
    let balance = read_balance(env, addr);
    if !is_authorized(env, addr) {
        return Err(TokenError::SpenderDeauthorized);
    }
    if balance < amount {
        return Err(TokenError::InsufficientBalance);
    }
    match balance.checked_sub(amount) {
        Some(rest) => {
            write_balance(env, addr, rest);
            Ok(())
        },
        None => Err(TokenError::Overflow),
    }
}

/// Whether an account may spend and receive.
pub fn is_authorized(env: &TokenLedger, addr: AccountId) -> (authorized: bool)
    ensures
        authorized == env@.is_authorized(addr),
{
    match env.states.get(&addr) {
        Some(state) => *state,
        None => true,
    }
}

/// Records whether an account may spend and receive.
pub fn write_authorization(env: &mut TokenLedger, addr: AccountId, is_authorized: bool)
    ensures
        final(env)@ == (TokenLedgerView {
            states: old(env)@.states.insert(addr, is_authorized),
            ..old(env)@
        }),
{
    env.states.insert(addr, is_authorized);
}

/// What `spender` may spend of the funds of `from`.
pub fn read_allowance(env: &TokenLedger, from: AccountId, spender: AccountId) -> (allowance:
    AllowanceValue)
    ensures
        allowance == env@.allowance_of(from, spender),
{
    let key = AllowanceDataKey { from, spender }.index();
    match env.allowances.get(&key) {
        Some(allowance) => {
            if allowance.expiration_ledger < env.sequence {
                AllowanceValue { amount: 0, expiration_ledger: allowance.expiration_ledger }
            } else {
                *allowance
            }
        },
        None => AllowanceValue { amount: 0, expiration_ledger: 0 },
    }
}

/// Stores what `spender` may spend of the funds of `from`. An allowance
/// above 0 cannot be given an expiry that has passed.
pub fn write_allowance(
    env: &mut TokenLedger,
    from: AccountId,
    spender: AccountId,
    amount: i128,
    expiration_ledger: u32,
) -> (done: Result<(), TokenError>)
    ensures
        match done {
            Ok(()) => {
                &&& old(env)@.allowance_error(amount, expiration_ledger) is None
                &&& final(env)@
                    == old(env)@.with_allowance(from, spender, amount, expiration_ledger)
            },
            Err(error) => {
                &&& old(env)@.allowance_error(amount, expiration_ledger) == Some(error)
                &&& final(env)@ == old(env)@
            },
        },
{
    let allowance = AllowanceValue { amount, expiration_ledger };
    if amount > 0 && expiration_ledger < env.sequence {
        return Err(TokenError::ExpiredAllowance);
    }
    let key = AllowanceDataKey { from, spender };
    env.allowances.insert(key.index(), allowance);
    if amount > 0 {
        env.leases.push(AllowanceLease { key, ledgers: expiration_ledger - env.sequence });
    }
    Ok(())
}

/// Takes `amount` from what `spender` may spend of the funds of `from`.
pub fn spend_allowance(
    env: &mut TokenLedger,
    from: AccountId,
    spender: AccountId,
    amount: i128,
) -> (done: Result<(), TokenError>)
    ensures
        match done {
            Ok(()) => {
                &&& old(env)@.spend_allowance_error(from, spender, amount) is None
                &&& final(env)@ == old(env)@.with_allowance_spent(from, spender, amount)
            },
            Err(error) => {
                &&& old(env)@.spend_allowance_error(from, spender, amount) == Some(error)
                &&& final(env)@ == old(env)@
            },
        },
{
    let allowance = read_allowance(env, from, spender);
    if allowance.amount < amount {
        return Err(TokenError::InsufficientAllowance);
    }
    match allowance.amount.checked_sub(amount) {
        Some(rest) => write_allowance(env, from, spender, rest, allowance.expiration_ledger),
        None => Err(TokenError::Overflow),
    }
}

/// Whether the asset has an administrator, which it has once initialized.
pub fn has_administrator(env: &TokenLedger) -> (has: bool)
    ensures
        has == env@.admin is Some,
{
    env.admin.is_some()
}

/// The administrator of the asset.
pub fn read_administrator(env: &TokenLedger) -> (admin: Result<AccountId, TokenError>)
    ensures
        admin == match env@.admin {
            Some(admin) => Ok::<AccountId, TokenError>(admin),
            None => Err(TokenError::NotInitialized),
        },
{
    match env.admin {
        Some(admin) => Ok(admin),
        None => Err(TokenError::NotInitialized),
    }
}

/// Makes `id` the administrator of the asset.
pub fn write_administrator(env: &mut TokenLedger, id: &AccountId)
    ensures
        final(env)@ == (TokenLedgerView { admin: Some(*id), ..old(env)@ }),
{
    env.admin = Some(*id);
}

/// How many decimals an amount of the asset has.
pub fn read_decimal(env: &TokenLedger) -> (decimal: Result<u32, TokenError>)
    ensures
        decimal == match env@.metadata {
            Some(metadata) => Ok::<u32, TokenError>(metadata.decimal),
            None => Err(TokenError::NotInitialized),
        },
{
    match &env.metadata {
        Some(metadata) => Ok(metadata.decimal),
        None => Err(TokenError::NotInitialized),
    }
}

pub fn read_name(env: &TokenLedger) -> (name: Result<String, TokenError>)
    ensures
        name == match env@.metadata {
            Some(metadata) => Ok::<String, TokenError>(metadata.name),
            None => Err(TokenError::NotInitialized),
        },
{
    match &env.metadata {
        Some(metadata) => Ok(metadata.name.clone()),
        None => Err(TokenError::NotInitialized),
    }
}

pub fn read_symbol(env: &TokenLedger) -> (symbol: Result<String, TokenError>)
    ensures
        symbol == match env@.metadata {
            Some(metadata) => Ok::<String, TokenError>(metadata.symbol),
            None => Err(TokenError::NotInitialized),
        },
{
    match &env.metadata {
        Some(metadata) => Ok(metadata.symbol.clone()),
        None => Err(TokenError::NotInitialized),
    }
}

/// Stores the descriptive data of the asset.
pub fn write_metadata(env: &mut TokenLedger, metadata: TokenMetadata)
    ensures
        final(env)@ == (TokenLedgerView { metadata: Some(metadata), ..old(env)@ }),
{
    env.metadata = Some(metadata);
}

/// Stores who receives the royalty of the asset.
pub fn write_royalty(env: &mut TokenLedger, recipient: AccountId)
    ensures
        final(env)@ == (TokenLedgerView { royalty_recipient: Some(recipient), ..old(env)@ }),
{
    env.royalty_recipient = Some(recipient);
}

/// Stores the royalty rate of the asset, in percent.
pub fn write_royalty_rate(env: &mut TokenLedger, percentage: u32)
    ensures
        final(env)@ == (TokenLedgerView { royalty_rate: Some(percentage), ..old(env)@ }),
{
    env.royalty_rate = Some(percentage);
}

/// Why `addr` cannot spend `amount`, if it cannot.
fn spend_check(env: &TokenLedger, addr: AccountId, amount: i128) -> (error: Option<TokenError>)
    ensures
        error == env@.spend_error(addr, amount),
{
    let balance = read_balance(env, addr);
    if !is_authorized(env, addr) {
        Some(TokenError::SpenderDeauthorized)
    } else if balance < amount {
        Some(TokenError::InsufficientBalance)
    } else if balance.checked_sub(amount).is_none() {
        Some(TokenError::Overflow)
    } else {
        None
    }
}

/// Why `to` cannot receive `amount` once `from` has spent it, if it cannot.
fn receive_check(env: &TokenLedger, from: AccountId, to: AccountId, amount: i128) -> (error:
    Option<TokenError>)
    requires
        env@.spend_error(from, amount) is None,
    ensures
        error == env@.spent(from, amount).receive_error(to, amount),
{
    let after_spending: i128 = if to == from {
        read_balance(env, from) - amount
    } else {
        read_balance(env, to)
    };
    if !is_authorized(env, to) {
        Some(TokenError::ReceiverDeauthorized)
    } else if after_spending.checked_add(amount).is_none() {
        Some(TokenError::Overflow)
    } else {
        None
    }
}

/// Why `spender` cannot spend `amount` of the funds of `from`, if it
/// cannot.
fn spend_allowance_check(env: &TokenLedger, from: AccountId, spender: AccountId, amount: i128)
    -> (error: Option<TokenError>)
    ensures
        error == env@.spend_allowance_error(from, spender, amount),
{
    let allowance = read_allowance(env, from, spender);
    if allowance.amount < amount {
        return Some(TokenError::InsufficientAllowance);
    }
    match allowance.amount.checked_sub(amount) {
        Some(rest) => {
            if rest > 0 && allowance.expiration_ledger < env.sequence {
                Some(TokenError::ExpiredAllowance)
            } else {
                None
            }
        },
        None => Some(TokenError::Overflow),
    }
}

/// An asset with an administrator, who issues it, takes it back, and
/// decides who may hold it. Every operation either succeeds or leaves the
/// ledger of the asset as it was.
pub struct Token;

impl Token {
    /// Sets the administrator, the descriptive data and the royalty of the
    /// asset, once.
    pub fn initialize(
        env: &mut TokenLedger,
        admin: AccountId,
        decimal: u32,
        name: String,
        symbol: String,
        royaltyr: AccountId,
        royaltyp: u32,
    ) -> (done: Result<(), TokenError>)
        ensures
            match done {
                Ok(()) => old(env)@.initialize_error(decimal) is None && final(env)@
                    == (TokenLedgerView {
                    admin: Some(admin),
                    metadata: Some(TokenMetadata { decimal, name, symbol }),
                    royalty_recipient: Some(royaltyr),
                    royalty_rate: Some(royaltyp),
                    ..old(env)@
                }),
                Err(error) => {
                    &&& old(env)@.initialize_error(decimal) == Some(error)
                    &&& final(env)@ == old(env)@
                },
            },
    {
        if has_administrator(env) {
            return Err(TokenError::AlreadyInitialized);
        }
        if decimal > 255 {
            return Err(TokenError::DecimalTooLarge);
        }
        write_administrator(env, &admin);
        write_royalty(env, royaltyr);
        write_royalty_rate(env, royaltyp);
        write_metadata(env, TokenMetadata { decimal, name, symbol });
        Ok(())
    }

    /// The royalty rate of the asset, in percent.
    pub fn get_royalty_rate(env: &TokenLedger) -> (rate: Result<u32, TokenError>)
        ensures
            rate == match env@.royalty_rate {
                Some(rate) => Ok::<u32, TokenError>(rate),
                None => Err(TokenError::NoRoyaltyData),
            },
    {
        match env.royalty_rate {
            Some(rate) => Ok(rate),
            None => Err(TokenError::NoRoyaltyData),
        }
    }

    /// Who receives the royalty of the asset.
    pub fn get_royalty_recipient(env: &TokenLedger) -> (recipient: Result<AccountId, TokenError>)
        ensures
            recipient == match env@.royalty_recipient {
                Some(recipient) => Ok::<AccountId, TokenError>(recipient),
                None => Err(TokenError::NoRoyaltyRecipient),
            },
    {
        match env.royalty_recipient {
            Some(recipient) => Ok(recipient),
            None => Err(TokenError::NoRoyaltyRecipient),
        }
    }

    /// What `spender` may still spend of the funds of `from`.
    pub fn allowance(env: &TokenLedger, from: AccountId, spender: AccountId) -> (amount: i128)
        ensures
            amount == env@.allowance_of(from, spender).amount,
    {
        read_allowance(env, from, spender).amount
    }

    /// Lets `spender` spend up to `amount` of the funds of `from`, up to
    /// ledger `expiration_ledger`. `from` has to authorize it.
    pub fn approve(
        env: &mut TokenLedger,
        from: AccountId,
        spender: AccountId,
        amount: i128,
        expiration_ledger: u32,
    ) -> (done: Result<(), TokenError>)
        ensures
            match done {
                Ok(()) => {
                    &&& old(env)@.approve_error(amount, expiration_ledger) is None
                    &&& final(env)@
                        == old(env)@.authorized_by(from)
                            .with_allowance(from, spender, amount, expiration_ledger)
                            .publishing(
                            TokenEvent::Approve { from, to: spender, amount, expiration_ledger },
                        )
                },
                Err(error) => {
                    &&& old(env)@.approve_error(amount, expiration_ledger) == Some(error)
                    &&& final(env)@ == old(env)@
                },
            },
    {
        check_nonnegative_amount(amount)?;
        if amount > 0 && expiration_ledger < env.sequence {
            return Err(TokenError::ExpiredAllowance);
        }
        env.require_auth(from);
        write_allowance(env, from, spender, amount, expiration_ledger)?;
        event::approve(env, from, spender, amount, expiration_ledger);
        Ok(())
    }

    /// The funds of an account.
    pub fn balance(env: &TokenLedger, id: AccountId) -> (balance: i128)
        ensures
            balance == env@.balance_of(id),
    {
        read_balance(env, id)
    }

    /// What an account can spend of its funds: all of them.
    pub fn spendable_balance(env: &TokenLedger, id: AccountId) -> (balance: i128)
        ensures
            balance == env@.balance_of(id),
    {
        read_balance(env, id)
    }

    /// Whether an account may spend and receive.
    pub fn authorized(env: &TokenLedger, id: AccountId) -> (authorized: bool)
        ensures
            authorized == env@.is_authorized(id),
    {
        is_authorized(env, id)
    }

    /// Moves `amount` from `from`, who has to authorize it, to `to`.
    pub fn transfer(env: &mut TokenLedger, from: AccountId, to: AccountId, amount: i128) -> (done:
        Result<(), TokenError>)
        ensures
            match done {
                Ok(()) => {
                    &&& old(env)@.transfer_error(from, to, amount) is None
                    &&& final(env)@ == old(env)@.authorized_by(from).moved(from, to, amount)
                },
                Err(error) => {
                    &&& old(env)@.transfer_error(from, to, amount) == Some(error)
                    &&& final(env)@ == old(env)@
                },
            },
    {
        check_nonnegative_amount(amount)?;
        if let Some(error) = spend_check(env, from, amount) {
            return Err(error);
        }
        if let Some(error) = receive_check(env, from, to, amount) {
            return Err(error);
        }
        env.require_auth(from);
        spend_balance(env, from, amount)?;
        receive_balance(env, to, amount)?;
        event::transfer(env, from, to, amount);
        Ok(())
    }

    /// Moves `amount` of the funds of `from` to `to`, out of what `spender`
    /// may spend of them. `spender` has to authorize it.
    pub fn transfer_from(
        env: &mut TokenLedger,
        spender: AccountId,
        from: AccountId,
        to: AccountId,
        amount: i128,
    ) -> (done: Result<(), TokenError>)
        ensures
            match done {
                Ok(()) => {
                    &&& old(env)@.transfer_from_error(spender, from, to, amount) is None
                    &&& final(env)@
                        == old(env)@.authorized_by(spender)
                            .with_allowance_spent(from, spender, amount).moved(from, to, amount)
                },
                Err(error) => {
                    &&& old(env)@.transfer_from_error(spender, from, to, amount) == Some(error)
                    &&& final(env)@ == old(env)@
                },
            },
    {
        check_nonnegative_amount(amount)?;
        if let Some(error) = spend_allowance_check(env, from, spender, amount) {
            return Err(error);
        }
        if let Some(error) = spend_check(env, from, amount) {
            return Err(error);
        }
        if let Some(error) = receive_check(env, from, to, amount) {
            return Err(error);
        }
        env.require_auth(spender);
        spend_allowance(env, from, spender, amount)?;
        spend_balance(env, from, amount)?;
        receive_balance(env, to, amount)?;
        event::transfer(env, from, to, amount);
        Ok(())
    }

    /// Destroys `amount` of the funds of `from`, who has to authorize it.
    pub fn burn(env: &mut TokenLedger, from: AccountId, amount: i128) -> (done: Result<
        (),
        TokenError,
    >)
        ensures
            match done {
                Ok(()) => {
                    &&& old(env)@.burn_error(from, amount) is None
                    &&& final(env)@
                        == old(env)@.authorized_by(from).spent(from, amount)
                            .publishing(TokenEvent::Burn { from, amount })
                },
                Err(error) => {
                    &&& old(env)@.burn_error(from, amount) == Some(error)
                    &&& final(env)@ == old(env)@
                },
            },
    {
        check_nonnegative_amount(amount)?;
        if let Some(error) = spend_check(env, from, amount) {
            return Err(error);
        }
        env.require_auth(from);
        spend_balance(env, from, amount)?;
        event::burn(env, from, amount);
        Ok(())
    }

    /// Destroys `amount` of the funds of `from`, out of what `spender` may
    /// spend of them. `spender` has to authorize it.
    pub fn burn_from(env: &mut TokenLedger, spender: AccountId, from: AccountId, amount: i128)
        -> (done: Result<(), TokenError>)
        ensures
            match done {
                Ok(()) => {
                    &&& old(env)@.burn_from_error(spender, from, amount) is None
                    &&& final(env)@
                        == old(env)@.authorized_by(spender)
                            .with_allowance_spent(from, spender, amount).spent(from, amount)
                            .publishing(TokenEvent::Burn { from, amount })
                },
                Err(error) => {
                    &&& old(env)@.burn_from_error(spender, from, amount) == Some(error)
                    &&& final(env)@ == old(env)@
                },
            },
    {
        check_nonnegative_amount(amount)?;
        if let Some(error) = spend_allowance_check(env, from, spender, amount) {
            return Err(error);
        }
        if let Some(error) = spend_check(env, from, amount) {
            return Err(error);
        }
        env.require_auth(spender);
        spend_allowance(env, from, spender, amount)?;
        spend_balance(env, from, amount)?;
        event::burn(env, from, amount);
        Ok(())
    }

    /// Takes `amount` back from `from`. The administrator has to authorize
    /// it.
    pub fn clawback(env: &mut TokenLedger, from: AccountId, amount: i128) -> (done: Result<
        (),
        TokenError,
    >)
        ensures
            match done {
                Ok(()) => {
                    &&& old(env)@.clawback_error(from, amount) is None
                    &&& final(env)@
                        == old(env)@.authorized_by(old(env)@.admin->0).spent(from, amount)
                            .publishing(
                            TokenEvent::Clawback { admin: old(env)@.admin->0, from, amount },
                        )
                },
                Err(error) => {
                    &&& old(env)@.clawback_error(from, amount) == Some(error)
                    &&& final(env)@ == old(env)@
                },
            },
    {
        check_nonnegative_amount(amount)?;
        let admin = read_administrator(env)?;
        if let Some(error) = spend_check(env, from, amount) {
            return Err(error);
        }
        env.require_auth(admin);
        spend_balance(env, from, amount)?;
        event::clawback(env, admin, from, amount);
        Ok(())
    }

    /// Decides whether `id` may spend and receive. The administrator has to
    /// authorize it.
    pub fn set_authorized(env: &mut TokenLedger, id: AccountId, authorize: bool) -> (done: Result<
        (),
        TokenError,
    >)
        ensures
            match done {
                Ok(()) => old(env)@.admin is Some && final(env)@ == (TokenLedgerView {
                    states: old(env)@.states.insert(id, authorize),
                    ..old(env)@.authorized_by(old(env)@.admin->0)
                }).publishing(
                    TokenEvent::SetAuthorized { admin: old(env)@.admin->0, id, authorize },
                ),
                Err(error) => {
                    &&& error == TokenError::NotInitialized
                    &&& old(env)@.admin is None
                    &&& final(env)@ == old(env)@
                },
            },
    {
        let admin = read_administrator(env)?;
        env.require_auth(admin);
        write_authorization(env, id, authorize);
        event::set_authorized(env, admin, id, authorize);
        Ok(())
    }

    /// Issues `amount` to `to`. The administrator has to authorize it.
    pub fn mint(env: &mut TokenLedger, to: AccountId, amount: i128) -> (done: Result<
        (),
        TokenError,
    >)
        ensures
            match done {
                Ok(()) => {
                    &&& old(env)@.mint_error(to, amount) is None
                    &&& final(env)@
                        == old(env)@.authorized_by(old(env)@.admin->0).received(to, amount)
                            .publishing(TokenEvent::Mint { admin: old(env)@.admin->0, to, amount })
                },
                Err(error) => {
                    &&& old(env)@.mint_error(to, amount) == Some(error)
                    &&& final(env)@ == old(env)@
                },
            },
    {
        check_nonnegative_amount(amount)?;
        let admin = read_administrator(env)?;
        if !is_authorized(env, to) {
            return Err(TokenError::ReceiverDeauthorized);
        }
        if read_balance(env, to).checked_add(amount).is_none() {
            return Err(TokenError::Overflow);
        }
        env.require_auth(admin);
        receive_balance(env, to, amount)?;
        event::mint(env, admin, to, amount);
        Ok(())
    }

    /// Hands the administration of the asset to `new_admin`. The
    /// administrator has to authorize it.
    pub fn set_admin(env: &mut TokenLedger, new_admin: AccountId) -> (done: Result<
        (),
        TokenError,
    >)
        ensures
            match done {
                Ok(()) => old(env)@.admin is Some && final(env)@ == (TokenLedgerView {
                    admin: Some(new_admin),
                    ..old(env)@.authorized_by(old(env)@.admin->0)
                }).publishing(TokenEvent::SetAdmin { admin: old(env)@.admin->0, new_admin }),
                Err(error) => {
                    &&& error == TokenError::NotInitialized
                    &&& old(env)@.admin is None
                    &&& final(env)@ == old(env)@
                },
            },
    {
        let admin = read_administrator(env)?;
        env.require_auth(admin);
        write_administrator(env, &new_admin);
        event::set_admin(env, admin, new_admin);
        Ok(())
    }

    pub fn decimals(env: &TokenLedger) -> (decimal: Result<u32, TokenError>)
        ensures
            decimal == match env@.metadata {
                Some(metadata) => Ok::<u32, TokenError>(metadata.decimal),
                None => Err(TokenError::NotInitialized),
            },
    {
        read_decimal(env)
    }

    pub fn name(env: &TokenLedger) -> (name: Result<String, TokenError>)
        ensures
            name == match env@.metadata {
                Some(metadata) => Ok::<String, TokenError>(metadata.name),
                None => Err(TokenError::NotInitialized),
            },
    {
        read_name(env)
    }

    pub fn symbol(env: &TokenLedger) -> (symbol: Result<String, TokenError>)
        ensures
            symbol == match env@.metadata {
                Some(metadata) => Ok::<String, TokenError>(metadata.symbol),
                None => Err(TokenError::NotInitialized),
            },
    {
        read_symbol(env)
    }
}

} // verus!
