use collectible::ledger::{Event, Payment};
use collectible::royalty_math::{distribute, royalty_share, FIXED_POINT_ONE};
use collectible::storage::royalties::Royalty;

fn royalty(address: u64, first_sale: bool, percentage: u128) -> Royalty {
    Royalty { address, first_sale, name: String::from("recipient"), percentage }
}

#[test]
fn share_is_rounded_down() {
    assert_eq!(FIXED_POINT_ONE, 10_000_000);
    assert_eq!(royalty_share(19_9900000, 0_0100000), Some(0_1999000));
    assert_eq!(royalty_share(19_9900000, 0_0300000), Some(0_5997000));
    assert_eq!(royalty_share(50_0000000, 0_0200000), Some(1_0000000));
    // 9 * 5% = 0.45 of the smallest unit
    assert_eq!(royalty_share(9, 0_0500000), Some(0));
    // 199 * 5% = 9.95
    assert_eq!(royalty_share(199, 0_0500000), Some(9));
    assert_eq!(royalty_share(0, 0_0500000), Some(0));
    assert_eq!(royalty_share(12345, 0), Some(0));
    assert_eq!(royalty_share(12345, 1_0000000), Some(12345));
    assert_eq!(royalty_share(u128::MAX, 1), Some(u128::MAX / 10_000_000));
}

#[test]
fn share_that_does_not_fit_is_none() {
    assert_eq!(royalty_share(u128::MAX, 2), None);
    assert_eq!(royalty_share(1u128 << 64, 1u128 << 64), None);
    assert_eq!(
        royalty_share((1u128 << 64) - 1, 1u128 << 64),
        Some(((1u128 << 64) - 1) * (1u128 << 64) / 10_000_000)
    );
}

#[test]
fn first_sale_pays_every_royalty() {
    let table = vec![
        royalty(2, true, 0_0100000),
        royalty(3, false, 0_0300000),
        royalty(4, false, 0_0200000),
    ];

    let split = distribute(&table, 9, 0, 19_9900000, false).unwrap();

    assert_eq!(split.total, 0_1999000 + 0_5997000 + 0_3998000);
    assert_eq!(
        split.payments,
        vec![
            Payment { from: 9, to: 2, amount: 0_1999000 },
            Payment { from: 9, to: 3, amount: 0_5997000 },
            Payment { from: 9, to: 4, amount: 0_3998000 },
        ]
    );
    assert_eq!(
        split.events,
        vec![
            Event::RoyaltyPayment { item_id: 0, to: 2, amount: 0_1999000 },
            Event::RoyaltyPayment { item_id: 0, to: 3, amount: 0_5997000 },
            Event::RoyaltyPayment { item_id: 0, to: 4, amount: 0_3998000 },
        ]
    );
}

#[test]
fn resale_skips_first_sale_royalties() {
    let table = vec![
        royalty(2, true, 0_0100000),
        royalty(3, false, 0_0300000),
        royalty(4, false, 0_0200000),
    ];

    let split = distribute(&table, 9, 7, 50_0000000, true).unwrap();

    assert_eq!(split.total, 1_5000000 + 1_0000000);
    assert_eq!(
        split.payments,
        vec![
            Payment { from: 9, to: 3, amount: 1_5000000 },
            Payment { from: 9, to: 4, amount: 1_0000000 },
        ]
    );
    assert_eq!(split.events.len(), 2);
}

#[test]
fn skipped_royalty_cannot_fail_the_split() {
    // The first entry cannot be computed, and is not asked for on a resale.
    let table = vec![royalty(2, true, u128::MAX), royalty(3, false, 0_0300000)];

    assert!(distribute(&table, 9, 7, 50_0000000, false).is_none());
    let split = distribute(&table, 9, 7, 50_0000000, true).unwrap();
    assert_eq!(split.total, 1_5000000);
}

#[test]
fn split_that_does_not_fit_is_none() {
    // The product of price and percentage leaves 128 bits.
    let whole = vec![royalty(2, false, 1_0000000)];
    assert!(distribute(&whole, 9, 7, u128::MAX / 10_000_000 + 1, false).is_none());
    let split = distribute(&whole, 9, 7, u128::MAX / 10_000_000, false).unwrap();
    assert_eq!(split.total, u128::MAX / 10_000_000);
    assert_eq!(split.payments[0].amount, (u128::MAX / 10_000_000) as i128);
    // An empty table asks for nothing.
    let split = distribute(&Vec::new(), 9, 7, u128::MAX, false).unwrap();
    assert_eq!(split.total, 0);
    assert!(split.payments.is_empty());
}
