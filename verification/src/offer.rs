//! A standing offer of one seller: one asset for another at a fixed price,
//! with a royalty on what the buyer pays.

use crate::storage::balances::AccountId;
use vstd::prelude::*;

verus! {

/// Why an operation of the offer was rejected. A rejected operation leaves
/// the offer as it found it.
#[derive(Copy, Clone, Debug, PartialEq, Eq, Structural)]
pub enum OfferError {
    AlreadyCreated,
    NotCreated,
    ZeroPrice,
    NegativeAmount,
    PriceTooLow,
    /// The royalty is more than what the buyer pays.
    RoyaltyTooHigh,
    /// An amount would leave the range of amounts.
    Overflow,
}

impl OfferError {
    /// The error in words.
    pub fn message(&self) -> (message: &'static str)
        ensures
            message@ == match *self {
                OfferError::AlreadyCreated => "offer is already created"@,
                OfferError::NotCreated => "offer is not created"@,
                OfferError::ZeroPrice => "zero price is not allowed"@,
                OfferError::NegativeAmount => "negative amount is not allowed"@,
                OfferError::PriceTooLow => "price is too low"@,
                OfferError::RoyaltyTooHigh => "royalty is too high"@,
                OfferError::Overflow => "amount out of range"@,
            },
    {
        match self {
            OfferError::AlreadyCreated => "offer is already created",
            OfferError::NotCreated => "offer is not created",
            OfferError::ZeroPrice => "zero price is not allowed",
            OfferError::NegativeAmount => "negative amount is not allowed",
            OfferError::PriceTooLow => "price is too low",
            OfferError::RoyaltyTooHigh => "royalty is too high",
            OfferError::Overflow => "amount out of range",
        }
    }
}

#[derive(Copy, Clone, Debug, PartialEq, Eq, Structural)]
pub enum DataKey {
    Offer,
}

/// What a seller offers. With a `sell_price` of 1000 and a `buy_price` of
/// 100, ten units of the asset that is sold go for one of the asset that is
/// bought; only the ratio of the two counts.
#[derive(Copy, Clone, Debug, PartialEq, Eq, Structural)]
pub struct Offer {
    /// Who sells `sell_token` to get `buy_token`.
    pub seller: AccountId,
    pub sell_token: AccountId,
    pub buy_token: AccountId,
    pub sell_price: u32,
    pub buy_price: u32,
    /// Who is paid the royalty, as the asset that is sold has it.
    pub royalty_recipient: AccountId,
    /// The royalty on what the buyer pays, in percent.
    pub royalty_pct: u32,
}

/// A movement of an asset that an operation asks for.
#[derive(Copy, Clone, Debug, PartialEq, Eq, Structural)]
pub struct TokenTransfer {
    pub token: AccountId,
    pub from: AccountId,
    pub to: AccountId,
    pub amount: i128,
}

/// The offer that is kept under the address `contract`, and the journal of
/// what its operations ask of the host.
pub struct OfferLedger {
    pub contract: AccountId,
    pub offer: Option<Offer>,
    pub authorizations: Vec<AccountId>,
    pub transfers: Vec<TokenTransfer>,
}

/// The ledger of an offer as a mathematical value.
pub struct OfferLedgerView {
    pub contract: AccountId,
    pub offer: Option<Offer>,
    pub authorizations: Seq<AccountId>,
    pub transfers: Seq<TokenTransfer>,
}

impl View for OfferLedger {
    type V = OfferLedgerView;

    open spec fn view(&self) -> OfferLedgerView {
        OfferLedgerView {
            contract: self.contract,
            offer: self.offer,
            authorizations: self.authorizations@,
            transfers: self.transfers@,
        }
    }
}

/// What `buy_token_amount` buys at the prices of an offer, rounded down.
pub open spec fn sold_for(offer: Offer, buy_token_amount: i128) -> int {
    (buy_token_amount * offer.sell_price) / (offer.buy_price as int)
}

/// The royalty on `buy_token_amount`, rounded down.
pub open spec fn royalty_on(offer: Offer, buy_token_amount: i128) -> int {
    (buy_token_amount * offer.royalty_pct) / 100
}

impl OfferLedgerView {
    /// This ledger with one more authorization to check.
    pub open spec fn authorized_by(self, account: AccountId) -> OfferLedgerView {
        OfferLedgerView { authorizations: self.authorizations.push(account), ..self }
    }

    /// Why an offer cannot be created, if it cannot.
    pub open spec fn create_error(self, sell_price: u32, buy_price: u32) -> Option<OfferError> {
        if self.offer is Some {
            Some(OfferError::AlreadyCreated)
        } else if buy_price == 0 || sell_price == 0 {
            Some(OfferError::ZeroPrice)
        } else {
            None
        }
    }

    /// Why the prices of the offer cannot be changed, if they cannot.
    pub open spec fn updt_price_error(self, sell_price: u32, buy_price: u32) -> Option<
        OfferError,
    > {
        if buy_price == 0 || sell_price == 0 {
            Some(OfferError::ZeroPrice)
        } else if self.offer is None {
            Some(OfferError::NotCreated)
        } else {
            None
        }
    }

    /// Why a buyer cannot trade `buy_token_amount` for at least
    /// `min_sell_token_amount`, if it cannot.
    pub open spec fn trade_error(self, buy_token_amount: i128, min_sell_token_amount: i128)
        -> Option<OfferError> {
        if self.offer is None {
            Some(OfferError::NotCreated)
        } else if buy_token_amount < 0 {
            Some(OfferError::NegativeAmount)
        } else if self.offer->0.buy_price == 0 {
            Some(OfferError::ZeroPrice)
        } else if buy_token_amount * self.offer->0.sell_price > i128::MAX {
            Some(OfferError::Overflow)
        } else if sold_for(self.offer->0, buy_token_amount) < min_sell_token_amount {
            Some(OfferError::PriceTooLow)
        } else if buy_token_amount * self.offer->0.royalty_pct > i128::MAX {
            Some(OfferError::Overflow)
        } else if royalty_on(self.offer->0, buy_token_amount) > buy_token_amount {
            Some(OfferError::RoyaltyTooHigh)
        } else {
            None
        }
    }

    /// The movements of a trade, in the order they are made: the buyer pays
    /// the contract, the contract hands out what was bought, and passes
    /// what the buyer paid on to the seller, less the royalty, which goes to
    /// its recipient.
    pub open spec fn trade_transfers(self, buyer: AccountId, buy_token_amount: i128) -> Seq<
        TokenTransfer,
    > {
        let offer = self.offer->0;
        let royalty = royalty_on(offer, buy_token_amount);
        seq![
            TokenTransfer {
                token: offer.buy_token,
                from: buyer,
                to: self.contract,
                amount: buy_token_amount,
            },
            TokenTransfer {
                token: offer.sell_token,
                from: self.contract,
                to: buyer,
                amount: sold_for(offer, buy_token_amount) as i128,
            },
            TokenTransfer {
                token: offer.buy_token,
                from: self.contract,
                to: offer.seller,
                amount: (buy_token_amount - royalty) as i128,
            },
            TokenTransfer {
                token: offer.buy_token,
                from: self.contract,
                to: offer.royalty_recipient,
                amount: royalty as i128,
            },
        ]
    }
}

/// The contract keeps nothing of what the buyer pays: the seller and the
/// recipient of the royalty get all of it between them.
pub proof fn lemma_trade_passes_payment_on(
    ledger: OfferLedgerView,
    buyer: AccountId,
    buy_token_amount: i128,
    min_sell_token_amount: i128,
)
    requires
        ledger.trade_error(buy_token_amount, min_sell_token_amount) is None,
    ensures
        ledger.trade_transfers(buyer, buy_token_amount)[2].amount + ledger.trade_transfers(
            buyer,
            buy_token_amount,
        )[3].amount == buy_token_amount,
        ledger.trade_transfers(buyer, buy_token_amount)[1].amount >= min_sell_token_amount,
        forall|i: int| 0 <= i < 4 ==> ledger.trade_transfers(buyer, buy_token_amount)[i].amount >= 0,
{
    let offer = ledger.offer->0;
    let sold = buy_token_amount * offer.sell_price;
    let cut = buy_token_amount * offer.royalty_pct;
    assert(0 <= sold && 0 <= cut) by (nonlinear_arith)
        requires
            sold == buy_token_amount * offer.sell_price,
            cut == buy_token_amount * offer.royalty_pct,
            0 <= buy_token_amount,
            0 <= offer.sell_price,
            0 <= offer.royalty_pct,
    ;
    assert(0 <= sold / (offer.buy_price as int) <= sold) by (nonlinear_arith)
        requires
            0 <= sold,
            offer.buy_price >= 1,
    ;
    assert(0 <= cut / 100);
}

fn load_offer(env: &OfferLedger) -> (offer: Result<Offer, OfferError>)
    ensures
        offer == match env@.offer {
            Some(offer) => Ok::<Offer, OfferError>(offer),
            None => Err(OfferError::NotCreated),
        },
{
    match env.offer {
        Some(offer) => Ok(offer),
        None => Err(OfferError::NotCreated),
    }
}

fn write_offer(env: &mut OfferLedger, offer: &Offer)
    ensures
        final(env)@ == (OfferLedgerView { offer: Some(*offer), ..old(env)@ }),
{
    env.offer = Some(*offer);
}

/// The offer of one seller. Every operation either succeeds or leaves the
/// ledger of the offer as it was.
pub struct RoyaltyOffer;

impl RoyaltyOffer {
    /// A ledger without an offer, for the contract at address `contract`.
    pub fn new(contract: AccountId) -> (ledger: OfferLedger)
        ensures
            ledger@ == (OfferLedgerView {
                contract,
                offer: None,
                authorizations: Seq::empty(),
                transfers: Seq::empty(),
            }),
    {
        OfferLedger { contract, offer: None, authorizations: Vec::new(), transfers: Vec::new() }
    }

    /// Creates the offer of `seller`, who has to authorize it, once. The
    /// royalty is the one of the asset that is sold.
    pub fn create(
        env: &mut OfferLedger,
        seller: AccountId,
        sell_token: AccountId,
        buy_token: AccountId,
        sell_price: u32,
        buy_price: u32,
        royalty_recipient: AccountId,
        royalty_pct: u32,
    ) -> (done: Result<(), OfferError>)
        ensures
            match done {
                Ok(()) => {
                    &&& old(env)@.create_error(sell_price, buy_price) is None
                    &&& final(env)@ == (OfferLedgerView {
                        offer: Some(
                            Offer {
                                seller,
                                sell_token,
                                buy_token,
                                sell_price,
                                buy_price,
                                royalty_recipient,
                                royalty_pct,
                            },
                        ),
                        ..old(env)@.authorized_by(seller)
                    })
                },
                Err(error) => {
                    &&& old(env)@.create_error(sell_price, buy_price) == Some(error)
                    &&& final(env)@ == old(env)@
                },
            },
    {
        if env.offer.is_some() {
            return Err(OfferError::AlreadyCreated);
        }
        if buy_price == 0 || sell_price == 0 {
            return Err(OfferError::ZeroPrice);
        }
        env.authorizations.push(seller);
        write_offer(
            env,
            &Offer {
                seller,
                sell_token,
                buy_token,
                sell_price,
                buy_price,
                royalty_recipient,
                royalty_pct,
            },
        );
        Ok(())
    }

    /// Trades `buy_token_amount` of the asset that the seller wants for the
    /// asset that is offered, at the price of the offer, if that gives the
    /// buyer at least `min_sell_token_amount`. The buyer has to authorize it.
    pub fn trade(
        env: &mut OfferLedger,
        buyer: AccountId,
        buy_token_amount: i128,
        min_sell_token_amount: i128,
    ) -> (done: Result<(), OfferError>)
        ensures
            match done {
                Ok(()) => {
                    &&& old(env)@.trade_error(buy_token_amount, min_sell_token_amount) is None
                    &&& final(env)@ == (OfferLedgerView {
                        transfers: old(env)@.transfers + old(env)@.trade_transfers(
                            buyer,
                            buy_token_amount,
                        ),
                        ..old(env)@.authorized_by(buyer)
                    })
                },
                Err(error) => {
                    &&& old(env)@.trade_error(buy_token_amount, min_sell_token_amount) == Some(
                        error,
                    )
                    &&& final(env)@ == old(env)@
                },
            },
    {
        let offer = load_offer(env)?;
        if buy_token_amount < 0 {
            return Err(OfferError::NegativeAmount);
        }
        if offer.buy_price == 0 {
            return Err(OfferError::ZeroPrice);
        }
        let sell_token_amount: i128 = match buy_token_amount.checked_mul(offer.sell_price as i128) {
            Some(product) => {
                assert(0 <= product) by (nonlinear_arith)
                    requires
                        product == buy_token_amount * offer.sell_price,
                        0 <= buy_token_amount,
                        0 <= offer.sell_price,
                ;
                product / offer.buy_price as i128
            },
            None => return Err(OfferError::Overflow),
        };
        if sell_token_amount < min_sell_token_amount {
            return Err(OfferError::PriceTooLow);
        }
        let royalty_amount: i128 = match buy_token_amount.checked_mul(offer.royalty_pct as i128) {
            Some(product) => {
                assert(0 <= product) by (nonlinear_arith)
                    requires
                        product == buy_token_amount * offer.royalty_pct,
                        0 <= buy_token_amount,
                        0 <= offer.royalty_pct,
                ;
                product / 100
            },
            None => return Err(OfferError::Overflow),
        };
        if royalty_amount > buy_token_amount {
            return Err(OfferError::RoyaltyTooHigh);
        }
        let seller_amount: i128 = buy_token_amount - royalty_amount;
        let contract = env.contract;
        env.authorizations.push(buyer);
        env.transfers.push(
            TokenTransfer {
                token: offer.buy_token,
                from: buyer,
                to: contract,
                amount: buy_token_amount,
            },
        );
        env.transfers.push(
            TokenTransfer {
                token: offer.sell_token,
                from: contract,
                to: buyer,
                amount: sell_token_amount,
            },
        );
        env.transfers.push(
            TokenTransfer {
                token: offer.buy_token,
                from: contract,
                to: offer.seller,
                amount: seller_amount,
            },
        );
        env.transfers.push(
            TokenTransfer {
                token: offer.buy_token,
                from: contract,
                to: offer.royalty_recipient,
                amount: royalty_amount,
            },
        );
        assert(env.transfers@ =~= old(env)@.transfers + old(env)@.trade_transfers(
            buyer,
            buy_token_amount,
        ));
        Ok(())
    }

    /// Hands `amount` of an asset that the contract holds to the seller,
    /// who has to authorize it. It can be any asset, so that the seller can
    /// get back what was sent to the contract by mistake.
    pub fn withdraw(env: &mut OfferLedger, token: AccountId, amount: i128) -> (done: Result<
        (),
        OfferError,
    >)
        ensures
            match done {
                Ok(()) => {
                    &&& old(env)@.offer is Some
                    &&& final(env)@ == (OfferLedgerView {
                        transfers: old(env)@.transfers.push(
                            TokenTransfer {
                                token,
                                from: old(env)@.contract,
                                to: old(env)@.offer->0.seller,
                                amount,
                            },
                        ),
                        ..old(env)@.authorized_by(old(env)@.offer->0.seller)
                    })
                },
                Err(error) => {
                    &&& error == OfferError::NotCreated
                    &&& old(env)@.offer is None
                    &&& final(env)@ == old(env)@
                },
            },
    {
        let offer = load_offer(env)?;
        let contract = env.contract;
        env.authorizations.push(offer.seller);
        env.transfers.push(TokenTransfer { token, from: contract, to: offer.seller, amount });
        Ok(())
    }

    /// Changes the prices of the offer, which the seller has to authorize.
    pub fn updt_price(env: &mut OfferLedger, sell_price: u32, buy_price: u32) -> (done: Result<
        (),
        OfferError,
    >)
        ensures
            match done {
                Ok(()) => {
                    &&& old(env)@.updt_price_error(sell_price, buy_price) is None
                    &&& final(env)@ == (OfferLedgerView {
                        offer: Some(Offer { sell_price, buy_price, ..old(env)@.offer->0 }),
                        ..old(env)@.authorized_by(old(env)@.offer->0.seller)
                    })
                },
                Err(error) => {
                    &&& old(env)@.updt_price_error(sell_price, buy_price) == Some(error)
                    &&& final(env)@ == old(env)@
                },
            },
    {
        if buy_price == 0 || sell_price == 0 {
            return Err(OfferError::ZeroPrice);
        }
        let mut offer = load_offer(env)?;
        env.authorizations.push(offer.seller);
        offer.sell_price = sell_price;
        offer.buy_price = buy_price;
        write_offer(env, &offer);
        Ok(())
    }

    /// The offer as it stands.
    pub fn get_offer(env: &OfferLedger) -> (offer: Result<Offer, OfferError>)
        ensures
            offer == match env@.offer {
                Some(offer) => Ok::<Offer, OfferError>(offer),
                None => Err(OfferError::NotCreated),
            },
    {
        load_offer(env)
    }
}

} // verus!
