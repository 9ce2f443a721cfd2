use collectible::offer::{Offer, OfferError, OfferLedger, RoyaltyOffer, TokenTransfer};
use collectible::royalty_index::{Error, RoyaltyIndex, RoyaltyIndexContract, StorageKey};
use collectible::storage::balances::AccountId;
use collectible::token::contract::Token;
use collectible::token::state::TokenLedger;

const TOKEN_ADMIN: AccountId = 1;
const SELLER: AccountId = 2;
const BUYER: AccountId = 3;
const SELL_TOKEN: AccountId = 10;
const BUY_TOKEN: AccountId = 11;
const OFFER: AccountId = 20;
const ROYALTY_RECIPIENT: AccountId = 30;

fn create_token_contract(admin: AccountId) -> TokenLedger {
    let mut token = TokenLedger::new();
    Token::initialize(
        &mut token,
        admin,
        7,
        String::from("name"),
        String::from("symbol"),
        ROYALTY_RECIPIENT,
        0,
    )
    .unwrap();
    token
}

fn create_single_offer_contract(
    seller: AccountId,
    sell_token: AccountId,
    buy_token: AccountId,
    sell_price: u32,
    buy_price: u32,
) -> OfferLedger {
    let mut offer = RoyaltyOffer::new(OFFER);
    RoyaltyOffer::create(
        &mut offer,
        seller,
        sell_token,
        buy_token,
        sell_price,
        buy_price,
        ROYALTY_RECIPIENT,
        0,
    )
    .unwrap();

    // The seller has to authorize it.
    assert_eq!(auths(&mut offer), vec![seller]);

    offer
}

/// Who had to authorize the last operation, and forgets it.
fn auths(offer: &mut OfferLedger) -> Vec<AccountId> {
    offer.authorizations.drain(..).collect()
}

/// Makes the movements that the offer has asked for, in order.
fn settle(offer: &mut OfferLedger, sell_token: &mut TokenLedger, buy_token: &mut TokenLedger) {
    let transfers: Vec<TokenTransfer> = offer.transfers.drain(..).collect();
    for transfer in transfers {
        let token = if transfer.token == SELL_TOKEN { &mut *sell_token } else { &mut *buy_token };
        Token::transfer(token, transfer.from, transfer.to, transfer.amount).unwrap();
    }
}

#[test]
fn test() {
    let mut sell_token = create_token_contract(TOKEN_ADMIN);
    let mut buy_token = create_token_contract(TOKEN_ADMIN);

    // The price here is 1 sell_token for 2 buy_token.
    let mut offer = create_single_offer_contract(SELLER, SELL_TOKEN, BUY_TOKEN, 1, 2);
    // Give some sell_token to seller and buy_token to buyer.
    Token::mint(&mut sell_token, SELLER, 1000).unwrap();
    Token::mint(&mut buy_token, BUYER, 1000).unwrap();
    // Deposit 100 sell_token from seller into offer.
    Token::transfer(&mut sell_token, SELLER, OFFER, 100).unwrap();

    // Try trading 20 buy_token for at least 11 sell_token - that wouldn't
    // succeed because the offer price would result in 10 sell_token.
    assert!(RoyaltyOffer::trade(&mut offer, BUYER, 20_i128, 11_i128).is_err());
    // Buyer trades 20 buy_token for 10 sell_token.
    RoyaltyOffer::trade(&mut offer, BUYER, 20_i128, 10_i128).unwrap();
    // The buyer has to authorize it, and pays the contract first.
    assert_eq!(auths(&mut offer), vec![BUYER]);
    assert_eq!(
        offer.transfers[0],
        TokenTransfer { token: BUY_TOKEN, from: BUYER, to: OFFER, amount: 20_i128 }
    );
    settle(&mut offer, &mut sell_token, &mut buy_token);

    assert_eq!(Token::balance(&sell_token, SELLER), 900);
    assert_eq!(Token::balance(&sell_token, BUYER), 10);
    assert_eq!(Token::balance(&sell_token, OFFER), 90);
    assert_eq!(Token::balance(&buy_token, SELLER), 20);
    assert_eq!(Token::balance(&buy_token, BUYER), 980);
    assert_eq!(Token::balance(&buy_token, OFFER), 0);

    // Withdraw 70 sell_token from offer.
    RoyaltyOffer::withdraw(&mut offer, SELL_TOKEN, 70).unwrap();
    // The seller has to authorize it.
    assert_eq!(auths(&mut offer), vec![SELLER]);
    settle(&mut offer, &mut sell_token, &mut buy_token);

    assert_eq!(Token::balance(&sell_token, SELLER), 970);
    assert_eq!(Token::balance(&sell_token, OFFER), 20);

    // The price here is 1 sell_token = 1 buy_token.
    RoyaltyOffer::updt_price(&mut offer, 1, 1).unwrap();
    // The seller has to authorize it.
    assert_eq!(auths(&mut offer), vec![SELLER]);

    // Buyer trades 10 buy_token for 10 sell_token.
    RoyaltyOffer::trade(&mut offer, BUYER, 10_i128, 9_i128).unwrap();
    settle(&mut offer, &mut sell_token, &mut buy_token);
    assert_eq!(Token::balance(&sell_token, SELLER), 970);
    assert_eq!(Token::balance(&sell_token, BUYER), 20);
    assert_eq!(Token::balance(&sell_token, OFFER), 10);
    assert_eq!(Token::balance(&buy_token, SELLER), 30);
    assert_eq!(Token::balance(&buy_token, BUYER), 970);
    assert_eq!(Token::balance(&buy_token, OFFER), 0);
}

#[test]
fn trade_pays_the_royalty_out_of_the_price() {
    let mut offer = RoyaltyOffer::new(OFFER);
    RoyaltyOffer::create(&mut offer, SELLER, SELL_TOKEN, BUY_TOKEN, 3, 7, ROYALTY_RECIPIENT, 15)
        .unwrap();

    RoyaltyOffer::trade(&mut offer, BUYER, 1000, 0).unwrap();

    // floor(1000 * 3 / 7) = 428, floor(1000 * 15 / 100) = 150
    assert_eq!(
        offer.transfers,
        vec![
            TokenTransfer { token: BUY_TOKEN, from: BUYER, to: OFFER, amount: 1000 },
            TokenTransfer { token: SELL_TOKEN, from: OFFER, to: BUYER, amount: 428 },
            TokenTransfer { token: BUY_TOKEN, from: OFFER, to: SELLER, amount: 850 },
            TokenTransfer { token: BUY_TOKEN, from: OFFER, to: ROYALTY_RECIPIENT, amount: 150 },
        ]
    );
    offer.transfers.clear();

    // floor(19 * 15 / 100) = 2
    RoyaltyOffer::trade(&mut offer, BUYER, 19, 8).unwrap();
    assert_eq!(offer.transfers[1].amount, 8);
    assert_eq!(offer.transfers[2].amount, 17);
    assert_eq!(offer.transfers[3].amount, 2);
}

#[test]
fn rejected_offer_operations_change_nothing() {
    let mut offer = RoyaltyOffer::new(OFFER);

    assert_eq!(RoyaltyOffer::trade(&mut offer, BUYER, 1, 0), Err(OfferError::NotCreated));
    assert_eq!(RoyaltyOffer::withdraw(&mut offer, SELL_TOKEN, 1), Err(OfferError::NotCreated));
    assert_eq!(RoyaltyOffer::updt_price(&mut offer, 1, 1), Err(OfferError::NotCreated));
    assert_eq!(RoyaltyOffer::get_offer(&offer), Err(OfferError::NotCreated));
    assert_eq!(
        RoyaltyOffer::create(&mut offer, SELLER, SELL_TOKEN, BUY_TOKEN, 0, 1, SELLER, 0),
        Err(OfferError::ZeroPrice)
    );
    assert_eq!(
        RoyaltyOffer::create(&mut offer, SELLER, SELL_TOKEN, BUY_TOKEN, 1, 0, SELLER, 0),
        Err(OfferError::ZeroPrice)
    );
    assert!(offer.offer.is_none());
    assert!(offer.authorizations.is_empty());

    RoyaltyOffer::create(&mut offer, SELLER, SELL_TOKEN, BUY_TOKEN, 5, 2, ROYALTY_RECIPIENT, 150)
        .unwrap();
    let created = Offer {
        seller: SELLER,
        sell_token: SELL_TOKEN,
        buy_token: BUY_TOKEN,
        sell_price: 5,
        buy_price: 2,
        royalty_recipient: ROYALTY_RECIPIENT,
        royalty_pct: 150,
    };
    assert_eq!(RoyaltyOffer::get_offer(&offer), Ok(created));
    offer.authorizations.clear();

    assert_eq!(
        RoyaltyOffer::create(&mut offer, BUYER, SELL_TOKEN, BUY_TOKEN, 1, 1, BUYER, 0),
        Err(OfferError::AlreadyCreated)
    );
    assert_eq!(RoyaltyOffer::updt_price(&mut offer, 0, 1), Err(OfferError::ZeroPrice));
    assert_eq!(RoyaltyOffer::updt_price(&mut offer, 1, 0), Err(OfferError::ZeroPrice));
    assert_eq!(RoyaltyOffer::trade(&mut offer, BUYER, -1, -100), Err(OfferError::NegativeAmount));
    assert_eq!(RoyaltyOffer::trade(&mut offer, BUYER, 10, 26), Err(OfferError::PriceTooLow));
    assert_eq!(RoyaltyOffer::trade(&mut offer, BUYER, i128::MAX, 0), Err(OfferError::Overflow));
    // A royalty of 150% is more than the buyer pays.
    assert_eq!(RoyaltyOffer::trade(&mut offer, BUYER, 10, 25), Err(OfferError::RoyaltyTooHigh));
    // Nothing is owed on nothing.
    assert_eq!(RoyaltyOffer::trade(&mut offer, BUYER, 0, 0), Ok(()));
    assert_eq!(offer.transfers.len(), 4);
    assert_eq!(offer.authorizations, vec![BUYER]);
    assert_eq!(RoyaltyOffer::get_offer(&offer), Ok(created));

    offer.offer = Some(Offer { buy_price: 0, ..created });
    assert_eq!(RoyaltyOffer::trade(&mut offer, BUYER, 10, 0), Err(OfferError::ZeroPrice));

    assert_eq!(OfferError::PriceTooLow.message(), "price is too low");
    assert_eq!(OfferError::ZeroPrice.message(), "zero price is not allowed");
    assert_eq!(OfferError::AlreadyCreated.message(), "offer is already created");
}

#[test]
fn royalty_terms_are_set_once() {
    let mut index = RoyaltyIndex::new();

    assert_eq!(RoyaltyIndexContract::get(&index), Err(Error::ContractNotInitialized));
    assert!(!index.has(StorageKey::Asset));

    assert_eq!(RoyaltyIndexContract::set(&mut index, 1, 2, 3, 10), Ok(()));
    assert_eq!(index.authorizations, vec![1]);
    assert!(index.has(StorageKey::Asset));
    assert!(index.has(StorageKey::Pct));
    assert_eq!(RoyaltyIndexContract::get(&index), Ok((1, 2, 3, 10)));

    assert_eq!(
        RoyaltyIndexContract::set(&mut index, 4, 5, 6, 20),
        Err(Error::ContractAlreadyInitialized)
    );
    assert_eq!(index.authorizations, vec![1]);
    assert_eq!(RoyaltyIndexContract::get(&index), Ok((1, 2, 3, 10)));

    assert_eq!(Error::ContractAlreadyInitialized.code(), 1);
    assert_eq!(Error::ContractNotInitialized.code(), 2);
    assert_eq!(Error::InvalidAuth.code(), 3);
    assert_eq!(Error::InvalidArguments.code(), 4);
}
