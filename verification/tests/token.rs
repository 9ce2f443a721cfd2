use collectible::storage::balances::AccountId;
use collectible::token::contract::{
    check_nonnegative_amount, read_allowance, read_balance, receive_balance, spend_allowance,
    spend_balance, write_allowance, Token,
};
use collectible::token::state::{
    AllowanceDataKey, AllowanceLease, AllowanceValue, TokenError, TokenEvent, TokenLedger,
};

const ADMIN1: AccountId = 1;
const ADMIN2: AccountId = 2;
const USER1: AccountId = 11;
const USER2: AccountId = 12;
const USER3: AccountId = 13;
const ROYALTYR: AccountId = 20;

fn create_token(admin: AccountId, royaltyr: AccountId, royaltyp: u32) -> TokenLedger {
    let mut token = TokenLedger::new();
    Token::initialize(
        &mut token,
        admin,
        0,
        String::from("name"),
        String::from("symbol"),
        royaltyr,
        royaltyp,
    )
    .unwrap();
    token
}

/// Who had to authorize the last operation, and forgets it.
fn auths(token: &mut TokenLedger) -> Vec<AccountId> {
    token.authorizations.drain(..).collect()
}

fn in_words<T>(done: Result<T, TokenError>) -> Result<T, &'static str> {
    done.map_err(|error| error.message())
}

#[test]
fn test_test() {
    let royaltyp = 10;
    let mut token = create_token(ADMIN1, ROYALTYR, royaltyp);

    Token::mint(&mut token, USER1, 1000).unwrap();
    assert_eq!(auths(&mut token), vec![ADMIN1]);
    assert_eq!(
        token.events.last().unwrap(),
        &TokenEvent::Mint { admin: ADMIN1, to: USER1, amount: 1000_i128 }
    );
    assert_eq!(Token::balance(&token, USER1), 1000);

    Token::approve(&mut token, USER2, USER3, 500, 200).unwrap();
    assert_eq!(auths(&mut token), vec![USER2]);
    assert_eq!(
        token.events.last().unwrap(),
        &TokenEvent::Approve {
            from: USER2,
            to: USER3,
            amount: 500_i128,
            expiration_ledger: 200_u32
        }
    );
    assert_eq!(Token::allowance(&token, USER2, USER3), 500);

    Token::transfer(&mut token, USER1, USER2, 600).unwrap();
    assert_eq!(auths(&mut token), vec![USER1]);
    assert_eq!(
        token.events.last().unwrap(),
        &TokenEvent::Transfer { from: USER1, to: USER2, amount: 600_i128 }
    );
    assert_eq!(Token::balance(&token, USER1), 400);
    assert_eq!(Token::balance(&token, USER2), 600);

    Token::transfer_from(&mut token, USER3, USER2, USER1, 400).unwrap();
    assert_eq!(auths(&mut token), vec![USER3]);
    assert_eq!(
        token.events.last().unwrap(),
        &TokenEvent::Transfer { from: USER2, to: USER1, amount: 400_i128 }
    );
    assert_eq!(Token::balance(&token, USER1), 800);
    assert_eq!(Token::balance(&token, USER2), 200);

    Token::transfer(&mut token, USER1, USER3, 300).unwrap();
    assert_eq!(Token::balance(&token, USER1), 500);
    assert_eq!(Token::balance(&token, USER3), 300);

    auths(&mut token);
    Token::set_admin(&mut token, ADMIN2).unwrap();
    assert_eq!(auths(&mut token), vec![ADMIN1]);
    assert_eq!(
        token.events.last().unwrap(),
        &TokenEvent::SetAdmin { admin: ADMIN1, new_admin: ADMIN2 }
    );

    Token::set_authorized(&mut token, USER2, false).unwrap();
    assert_eq!(auths(&mut token), vec![ADMIN2]);
    assert_eq!(
        token.events.last().unwrap(),
        &TokenEvent::SetAuthorized { admin: ADMIN2, id: USER2, authorize: false }
    );
    assert_eq!(Token::authorized(&token, USER2), false);

    Token::set_authorized(&mut token, USER3, true).unwrap();
    assert_eq!(Token::authorized(&token, USER3), true);

    auths(&mut token);
    Token::clawback(&mut token, USER3, 100).unwrap();
    assert_eq!(auths(&mut token), vec![ADMIN2]);
    assert_eq!(
        token.events.last().unwrap(),
        &TokenEvent::Clawback { admin: ADMIN2, from: USER3, amount: 100_i128 }
    );
    assert_eq!(Token::balance(&token, USER3), 200);

    // An allowance is set to 500 and then taken back.
    Token::approve(&mut token, USER2, USER3, 500, 200).unwrap();
    assert_eq!(Token::allowance(&token, USER2, USER3), 500);
    auths(&mut token);
    Token::approve(&mut token, USER2, USER3, 0, 200).unwrap();
    assert_eq!(auths(&mut token), vec![USER2]);
    assert_eq!(
        token.events.last().unwrap(),
        &TokenEvent::Approve { from: USER2, to: USER3, amount: 0_i128, expiration_ledger: 200_u32 }
    );
    assert_eq!(Token::allowance(&token, USER2, USER3), 0);
}

#[test]
fn test_burn() {
    let royaltyp = 10;
    let mut token = create_token(ADMIN1, ROYALTYR, royaltyp);

    Token::mint(&mut token, USER1, 1000).unwrap();
    assert_eq!(Token::balance(&token, USER1), 1000);

    Token::approve(&mut token, USER1, USER2, 500, 200).unwrap();
    assert_eq!(Token::allowance(&token, USER1, USER2), 500);

    auths(&mut token);
    Token::burn_from(&mut token, USER2, USER1, 500).unwrap();
    assert_eq!(auths(&mut token), vec![USER2]);
    assert_eq!(token.events.last().unwrap(), &TokenEvent::Burn { from: USER1, amount: 500_i128 });

    assert_eq!(Token::allowance(&token, USER1, USER2), 0);
    assert_eq!(Token::balance(&token, USER1), 500);
    assert_eq!(Token::balance(&token, USER2), 0);

    Token::burn(&mut token, USER1, 500).unwrap();
    assert_eq!(auths(&mut token), vec![USER1]);
    assert_eq!(token.events.last().unwrap(), &TokenEvent::Burn { from: USER1, amount: 500_i128 });

    assert_eq!(Token::balance(&token, USER1), 0);
    assert_eq!(Token::balance(&token, USER2), 0);
}

#[test]
#[should_panic(expected = "insufficient balance")]
fn transfer_insufficient_balance() {
    let royaltyp = 10;
    let mut token = create_token(ADMIN1, ROYALTYR, royaltyp);

    Token::mint(&mut token, USER1, 1000).unwrap();
    assert_eq!(Token::balance(&token, USER1), 1000);

    in_words(Token::transfer(&mut token, USER1, USER2, 1001)).unwrap();
}

#[test]
#[should_panic(expected = "can't receive when deauthorized")]
fn transfer_receive_deauthorized() {
    let royaltyp = 10;
    let mut token = create_token(ADMIN1, ROYALTYR, royaltyp);

    Token::mint(&mut token, USER1, 1000).unwrap();
    assert_eq!(Token::balance(&token, USER1), 1000);

    Token::set_authorized(&mut token, USER2, false).unwrap();
    in_words(Token::transfer(&mut token, USER1, USER2, 1)).unwrap();
}

#[test]
#[should_panic(expected = "can't spend when deauthorized")]
fn transfer_spend_deauthorized() {
    let royaltyp = 10;
    let mut token = create_token(ADMIN1, ROYALTYR, royaltyp);

    Token::mint(&mut token, USER1, 1000).unwrap();
    assert_eq!(Token::balance(&token, USER1), 1000);

    Token::set_authorized(&mut token, USER1, false).unwrap();
    in_words(Token::transfer(&mut token, USER1, USER2, 1)).unwrap();
}

#[test]
#[should_panic(expected = "insufficient allowance")]
fn transfer_from_insufficient_allowance() {
    let royaltyp = 10;
    let mut token = create_token(ADMIN1, ROYALTYR, royaltyp);

    Token::mint(&mut token, USER1, 1000).unwrap();
    assert_eq!(Token::balance(&token, USER1), 1000);

    Token::approve(&mut token, USER1, USER3, 100, 200).unwrap();
    assert_eq!(Token::allowance(&token, USER1, USER3), 100);

    in_words(Token::transfer_from(&mut token, USER3, USER1, USER2, 101)).unwrap();
}

#[test]
#[should_panic(expected = "already initialized")]
fn initialize_already_initialized() {
    let royaltyp = 10;
    let mut token = create_token(ADMIN1, ROYALTYR, royaltyp);

    in_words(Token::initialize(
        &mut token,
        ADMIN1,
        10,
        String::from("name"),
        String::from("symbol"),
        ROYALTYR,
        royaltyp,
    ))
    .unwrap();
}

#[test]
#[should_panic(expected = "Decimal must fit in a u8")]
fn decimal_is_over_max() {
    let royaltyp = 10;
    let mut token = TokenLedger::new();

    in_words(Token::initialize(
        &mut token,
        ADMIN1,
        u32::from(u8::MAX) + 1,
        String::from("name"),
        String::from("symbol"),
        ROYALTYR,
        royaltyp,
    ))
    .unwrap();
}

#[test]
fn rejected_operations_change_nothing() {
    let mut token = create_token(ADMIN1, ROYALTYR, 10);
    Token::mint(&mut token, USER1, 1000).unwrap();
    Token::approve(&mut token, USER1, USER3, 100, 200).unwrap();
    Token::set_authorized(&mut token, USER2, false).unwrap();
    let events = token.events.clone();
    let auths = token.authorizations.clone();
    let leases = token.leases.clone();

    assert_eq!(Token::transfer(&mut token, USER1, USER3, -1), Err(TokenError::NegativeAmount));
    assert_eq!(
        Token::transfer(&mut token, USER1, USER3, 1001),
        Err(TokenError::InsufficientBalance)
    );
    assert_eq!(
        Token::transfer(&mut token, USER1, USER2, 5),
        Err(TokenError::ReceiverDeauthorized)
    );
    assert_eq!(
        Token::transfer(&mut token, USER2, USER1, 0),
        Err(TokenError::SpenderDeauthorized)
    );
    // The allowance would do, the receiver does not: neither is touched.
    assert_eq!(
        Token::transfer_from(&mut token, USER3, USER1, USER2, 50),
        Err(TokenError::ReceiverDeauthorized)
    );
    assert_eq!(
        Token::transfer_from(&mut token, USER3, USER1, USER3, 101),
        Err(TokenError::InsufficientAllowance)
    );
    assert_eq!(Token::burn(&mut token, USER1, 1001), Err(TokenError::InsufficientBalance));
    assert_eq!(
        Token::burn_from(&mut token, USER3, USER1, 101),
        Err(TokenError::InsufficientAllowance)
    );
    assert_eq!(Token::clawback(&mut token, USER1, 1001), Err(TokenError::InsufficientBalance));
    assert_eq!(Token::mint(&mut token, USER2, 1), Err(TokenError::ReceiverDeauthorized));
    assert_eq!(Token::mint(&mut token, USER1, i128::MAX), Err(TokenError::Overflow));
    assert_eq!(Token::approve(&mut token, USER1, USER3, -5, 200), Err(TokenError::NegativeAmount));

    assert_eq!(Token::balance(&token, USER1), 1000);
    assert_eq!(Token::spendable_balance(&token, USER1), 1000);
    assert_eq!(Token::balance(&token, USER2), 0);
    assert_eq!(Token::balance(&token, USER3), 0);
    assert_eq!(Token::allowance(&token, USER1, USER3), 100);
    assert_eq!(token.events, events);
    assert_eq!(token.authorizations, auths);
    assert_eq!(token.leases, leases);
}

#[test]
fn allowance_expires() {
    let mut token = create_token(ADMIN1, ROYALTYR, 10);
    token.sequence = 100;
    Token::mint(&mut token, USER1, 1000).unwrap();

    assert_eq!(
        Token::approve(&mut token, USER1, USER2, 10, 99),
        Err(TokenError::ExpiredAllowance)
    );
    // Nothing is as good yesterday as today.
    Token::approve(&mut token, USER1, USER2, 0, 99).unwrap();
    assert!(token.leases.is_empty());

    Token::approve(&mut token, USER1, USER2, 300, 150).unwrap();
    assert_eq!(
        token.leases,
        vec![AllowanceLease { key: AllowanceDataKey { from: USER1, spender: USER2 }, ledgers: 50 }]
    );
    assert_eq!(
        read_allowance(&token, USER1, USER2),
        AllowanceValue { amount: 300, expiration_ledger: 150 }
    );
    // The other direction was never approved.
    assert_eq!(
        read_allowance(&token, USER2, USER1),
        AllowanceValue { amount: 0, expiration_ledger: 0 }
    );

    token.sequence = 150;
    Token::transfer_from(&mut token, USER2, USER1, USER3, 100).unwrap();
    assert_eq!(Token::allowance(&token, USER1, USER2), 200);
    assert_eq!(token.leases.last().unwrap().ledgers, 0);

    token.sequence = 151;
    assert_eq!(
        read_allowance(&token, USER1, USER2),
        AllowanceValue { amount: 0, expiration_ledger: 150 }
    );
    assert_eq!(
        Token::transfer_from(&mut token, USER2, USER1, USER3, 1),
        Err(TokenError::InsufficientAllowance)
    );
    // Spending nothing of an expired allowance is in order.
    Token::transfer_from(&mut token, USER2, USER1, USER3, 0).unwrap();
    assert_eq!(Token::balance(&token, USER1), 900);
    assert_eq!(Token::balance(&token, USER3), 100);
}

#[test]
fn balance_helpers() {
    let mut token = TokenLedger::new();

    assert_eq!(check_nonnegative_amount(0), Ok(()));
    assert_eq!(check_nonnegative_amount(i128::MAX), Ok(()));
    assert_eq!(check_nonnegative_amount(-1), Err(TokenError::NegativeAmount));
    assert_eq!(check_nonnegative_amount(i128::MIN), Err(TokenError::NegativeAmount));

    assert_eq!(read_balance(&token, USER1), 0);
    receive_balance(&mut token, USER1, 70).unwrap();
    receive_balance(&mut token, USER1, 5).unwrap();
    assert_eq!(read_balance(&token, USER1), 75);
    assert_eq!(receive_balance(&mut token, USER1, i128::MAX), Err(TokenError::Overflow));
    spend_balance(&mut token, USER1, 75).unwrap();
    assert_eq!(read_balance(&token, USER1), 0);
    assert_eq!(spend_balance(&mut token, USER1, 1), Err(TokenError::InsufficientBalance));

    write_allowance(&mut token, USER1, USER2, 9, 0).unwrap();
    spend_allowance(&mut token, USER1, USER2, 4).unwrap();
    assert_eq!(read_allowance(&token, USER1, USER2).amount, 5);
    assert_eq!(
        spend_allowance(&mut token, USER1, USER2, 6),
        Err(TokenError::InsufficientAllowance)
    );
}

#[test]
fn uninitialized_asset() {
    let mut token = TokenLedger::new();

    assert_eq!(Token::mint(&mut token, USER1, 1), Err(TokenError::NotInitialized));
    assert_eq!(Token::clawback(&mut token, USER1, 0), Err(TokenError::NotInitialized));
    assert_eq!(Token::set_admin(&mut token, ADMIN2), Err(TokenError::NotInitialized));
    assert_eq!(Token::set_authorized(&mut token, USER1, true), Err(TokenError::NotInitialized));
    assert_eq!(Token::decimals(&token), Err(TokenError::NotInitialized));
    assert_eq!(Token::name(&token), Err(TokenError::NotInitialized));
    assert_eq!(Token::symbol(&token), Err(TokenError::NotInitialized));
    assert_eq!(Token::get_royalty_rate(&token), Err(TokenError::NoRoyaltyData));
    assert_eq!(Token::get_royalty_recipient(&token), Err(TokenError::NoRoyaltyRecipient));
    assert!(token.authorizations.is_empty());

    let token = create_token(ADMIN1, ROYALTYR, 10);
    assert_eq!(Token::decimals(&token), Ok(0));
    assert_eq!(Token::name(&token).unwrap(), "name");
    assert_eq!(Token::symbol(&token).unwrap(), "symbol");
    assert_eq!(Token::get_royalty_rate(&token), Ok(10));
    assert_eq!(Token::get_royalty_recipient(&token), Ok(ROYALTYR));
}

#[test]
fn allowance_keys_do_not_collide() {
    let swapped = AllowanceDataKey { from: 1, spender: 0 };
    let plain = AllowanceDataKey { from: 0, spender: 1 };
    assert_eq!(plain.index(), 1);
    assert_eq!(swapped.index(), 1u128 << 64);
    assert_eq!(
        AllowanceDataKey { from: u64::MAX, spender: u64::MAX }.index(),
        u128::MAX
    );
}
