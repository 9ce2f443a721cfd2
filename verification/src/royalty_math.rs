use crate::ledger::{Event, Payment};
use crate::storage::balances::AccountId;
use crate::storage::royalties::Royalty;
use vstd::prelude::*;

verus! {

/// One whole unit of a fixed-point amount: seven implied decimal digits.
pub const FIXED_POINT_ONE: u128 = 1_0000000;

/// The share of `price` that a royalty of `percentage` is owed, rounded down.
pub open spec fn share_of(price: u128, percentage: u128) -> int {
    (price * percentage) / (FIXED_POINT_ONE as int)
}

/// Whether a royalty is paid on a sale. One that is for first sales only is
/// not paid on a resale.
pub open spec fn is_paid(royalty: Royalty, resale: bool) -> bool {
    !(resale && royalty.first_sale)
}

/// What a royalty is owed on a sale at `price`.
pub open spec fn owed(royalty: Royalty, price: u128, resale: bool) -> int {
    if is_paid(royalty, resale) {
        share_of(price, royalty.percentage)
    } else {
        0
    }
}

/// What the entries of a royalty table are owed together on a sale at
/// `price`.
pub open spec fn total_owed(table: Seq<Royalty>, price: u128, resale: bool) -> int
    decreases table.len(),
{
    if table.len() == 0 {
        0
    } else {
        total_owed(table.drop_last(), price, resale) + owed(table.last(), price, resale)
    }
}

/// The payment from the buyer to a royalty recipient, if it is paid.
pub open spec fn royalty_payment(royalty: Royalty, buyer: AccountId, price: u128, resale: bool)
    -> Option<Payment> {
    if is_paid(royalty, resale) {
        Some(
            Payment {
                from: buyer,
                to: royalty.address,
                amount: share_of(price, royalty.percentage) as i128,
            },
        )
    } else {
        None
    }
}

/// The rule by which the entries of a royalty table are paid on one sale.
pub open spec fn payment_rule(buyer: AccountId, price: u128, resale: bool) -> spec_fn(
    Royalty,
) -> Option<Payment> {
    |royalty: Royalty| royalty_payment(royalty, buyer, price, resale)
}

/// The payments from the buyer to the royalty recipients: one to each
/// entry that is paid, in table order.
pub open spec fn royalty_payments(table: Seq<Royalty>, buyer: AccountId, price: u128, resale: bool)
    -> Seq<Payment> {
    table.filter_map(payment_rule(buyer, price, resale))
}

/// The record of the payment to a royalty recipient, if it is paid.
pub open spec fn royalty_event(royalty: Royalty, item_id: u64, price: u128, resale: bool)
    -> Option<Event> {
    if is_paid(royalty, resale) {
        Some(
            Event::RoyaltyPayment {
                item_id,
                to: royalty.address,
                amount: share_of(price, royalty.percentage) as u128,
            },
        )
    } else {
        None
    }
}

/// The rule by which the payments to the entries of a royalty table are
/// recorded on one sale.
pub open spec fn event_rule(item_id: u64, price: u128, resale: bool) -> spec_fn(Royalty) -> Option<
    Event,
> {
    |royalty: Royalty| royalty_event(royalty, item_id, price, resale)
}

/// The records of the payments to the royalty recipients: one for each
/// entry that is paid, in table order.
pub open spec fn royalty_events(table: Seq<Royalty>, item_id: u64, price: u128, resale: bool)
    -> Seq<Event> {
    table.filter_map(event_rule(item_id, price, resale))
}

/// Whether every share that is paid can be computed in 128 bits.
pub open spec fn shares_fit(table: Seq<Royalty>, price: u128, resale: bool) -> bool {
    forall|i: int|
        0 <= i < table.len() && is_paid(#[trigger] table[i], resale) ==> price
            * table[i].percentage <= u128::MAX
}

/// Whether the shares of a royalty table can be worked out for a sale.
pub open spec fn distributable(table: Seq<Royalty>, price: u128, resale: bool) -> bool {
    shares_fit(table, price, resale) && total_owed(table, price, resale) <= u128::MAX
}

/// Whether a sale at `price` can be paid out: the shares can be worked
/// out, they do not exceed the price, and what is left for the seller can
/// be handed to the payment asset, which takes signed amounts.
pub open spec fn payable(table: Seq<Royalty>, price: u128, resale: bool) -> bool {
    &&& shares_fit(table, price, resale)
    &&& total_owed(table, price, resale) <= price
    &&& price - total_owed(table, price, resale) <= i128::MAX
}

/// What a sequence of payments moves in total.
pub open spec fn paid_out(payments: Seq<Payment>) -> int
    decreases payments.len(),
{
    if payments.len() == 0 {
        0
    } else {
        paid_out(payments.drop_last()) + payments.last().amount
    }
}

/// The payments of a sale, in the order they are made: first to every
/// royalty recipient that is paid, in table order, then to the seller what
/// is left of the price.
pub open spec fn sale_payments(
    table: Seq<Royalty>,
    buyer: AccountId,
    seller: AccountId,
    price: u128,
    resale: bool,
) -> Seq<Payment> {
    royalty_payments(table, buyer, price, resale).push(
        Payment {
            from: buyer,
            to: seller,
            amount: (price - total_owed(table, price, resale)) as i128,
        },
    )
}

/// A share that can be computed in 128 bits is an amount that the payment
/// asset, which takes signed amounts, can move.
pub proof fn lemma_share_is_an_amount(price: u128, percentage: u128)
    requires
        price * percentage <= u128::MAX,
    ensures
        0 <= share_of(price, percentage) <= i128::MAX,
{
    let product = price * percentage;
    assert(0 <= product) by (nonlinear_arith)
        requires
            product == price * percentage,
            0 <= price,
            0 <= percentage,
    ;
    assert(0 <= product / 10000000 <= i128::MAX);
}

/// No royalty is owed a negative amount.
pub proof fn lemma_owed_is_not_negative(royalty: Royalty, price: u128, resale: bool)
    ensures
        0 <= owed(royalty, price, resale),
{
    let product = price * royalty.percentage;
    assert(0 <= product) by (nonlinear_arith)
        requires
            product == price * royalty.percentage,
            0 <= price,
            0 <= royalty.percentage,
    ;
    assert(0 <= product / 10000000);
}

/// What a royalty table is owed grows with every entry: its first entries
/// are owed no more than the whole table.
pub proof fn lemma_total_owed_grows(table: Seq<Royalty>, price: u128, resale: bool, first: int)
    requires
        0 <= first <= table.len(),
    ensures
        0 <= total_owed(table.take(first), price, resale) <= total_owed(table, price, resale),
    decreases table.len(),
{
    if first == table.len() {
        assert(table.take(first) =~= table);
        if table.len() > 0 {
            lemma_total_owed_grows(table.drop_last(), price, resale, 0);
            assert(table.drop_last().take(0) =~= Seq::<Royalty>::empty());
            lemma_owed_is_not_negative(table.last(), price, resale);
        }
    } else {
        lemma_total_owed_grows(table.drop_last(), price, resale, first);
        assert(table.drop_last().take(first) =~= table.take(first));
        lemma_owed_is_not_negative(table.last(), price, resale);
    }
}

/// The royalty recipients are paid together what the table is owed.
pub proof fn lemma_royalties_paid_out(
    table: Seq<Royalty>,
    buyer: AccountId,
    price: u128,
    resale: bool,
)
    requires
        shares_fit(table, price, resale),
    ensures
        paid_out(royalty_payments(table, buyer, price, resale)) == total_owed(
            table,
            price,
            resale,
        ),
    decreases table.len(),
{
    if table.len() > 0 {
        let before = table.drop_last();
        let royalty = table.last();
        assert forall|i: int|
            0 <= i < before.len() && is_paid(#[trigger] before[i], resale) implies price
            * before[i].percentage <= u128::MAX by {
            assert(before[i] == table[i]);
        }
        lemma_royalties_paid_out(before, buyer, price, resale);
        let paid_before = royalty_payments(before, buyer, price, resale);
        if is_paid(royalty, resale) {
            assert(royalty == table[table.len() - 1]);
            lemma_share_is_an_amount(price, royalty.percentage);
            let payment = royalty_payment(royalty, buyer, price, resale)->0;
            assert(royalty_payments(table, buyer, price, resale) == paid_before + seq![payment]);
            assert((paid_before + seq![payment]).drop_last() =~= paid_before);
        }
    }
}

/// A sale that can be paid out moves exactly the price: the buyer pays
/// neither more nor less.
pub proof fn lemma_sale_moves_price(
    table: Seq<Royalty>,
    buyer: AccountId,
    seller: AccountId,
    price: u128,
    resale: bool,
)
    requires
        payable(table, price, resale),
    ensures
        paid_out(sale_payments(table, buyer, seller, price, resale)) == price,
{
    lemma_royalties_paid_out(table, buyer, price, resale);
    lemma_total_owed_grows(table, price, resale, 0);
    let royalties = royalty_payments(table, buyer, price, resale);
    let rest = Payment {
        from: buyer,
        to: seller,
        amount: (price - total_owed(table, price, resale)) as i128,
    };
    assert(royalties.push(rest).drop_last() =~= royalties);
}

/// The percentages of a royalty table, added up.
pub open spec fn total_percentage(table: Seq<Royalty>) -> int
    decreases table.len(),
{
    if table.len() == 0 {
        0
    } else {
        total_percentage(table.drop_last()) + table.last().percentage
    }
}

/// Rounding down keeps what a table is owed within its part of the price:
/// no more than the price times the percentages of the table.
pub proof fn lemma_owed_within_percentage(table: Seq<Royalty>, price: u128, resale: bool)
    ensures
        total_owed(table, price, resale) * FIXED_POINT_ONE <= price * total_percentage(table),
        forall|i: int|
            0 <= i < table.len() ==> (#[trigger] table[i]).percentage <= total_percentage(table),
    decreases table.len(),
{
    if table.len() > 0 {
        let before = table.drop_last();
        let royalty = table.last();
        lemma_owed_within_percentage(before, price, resale);
        let part = price * royalty.percentage;
        assert(0 <= part) by (nonlinear_arith)
            requires
                part == price * royalty.percentage,
                0 <= price,
                0 <= royalty.percentage,
        ;
        assert(owed(royalty, price, resale) * 10000000 <= part);
        assert(price * total_percentage(table) == price * total_percentage(before) + part)
            by (nonlinear_arith)
            requires
                total_percentage(table) == total_percentage(before) + royalty.percentage,
                part == price * royalty.percentage,
        ;
        assert forall|i: int| 0 <= i < table.len() implies (#[trigger] table[i]).percentage
            <= total_percentage(table) by {
            if i < before.len() {
                assert(before[i] == table[i]);
            }
        }
    }
}

/// A sale can be paid out where the percentages of the royalty table add
/// up to no more than the whole, and the price times one whole unit fits
/// in 128 bits.
pub proof fn lemma_modest_table_is_payable(table: Seq<Royalty>, price: u128, resale: bool)
    requires
        total_percentage(table) <= FIXED_POINT_ONE,
        price * FIXED_POINT_ONE <= u128::MAX,
    ensures
        payable(table, price, resale),
{
    lemma_owed_within_percentage(table, price, resale);
    lemma_total_owed_grows(table, price, resale, 0);
    let percentages = total_percentage(table);
    assert(price * percentages <= price * 10000000) by (nonlinear_arith)
        requires
            percentages <= 10000000,
            0 <= price,
    ;
    assert forall|i: int| 0 <= i < table.len() implies price * (#[trigger] table[i]).percentage
        <= u128::MAX by {
        let percentage = table[i].percentage;
        assert(price * percentage <= price * 10000000) by (nonlinear_arith)
            requires
                percentage <= 10000000,
                0 <= price,
        ;
    }
}

/// `num_integer::div_floor` on `u128`. For an unsigned type the crate defines
/// floored division as the `/` operator, which panics on a zero divisor.
#[verifier::external_body]
fn div_floor(x: u128, y: u128) -> (q: u128)
    requires
        y != 0,
    ensures
        q == x as int / y as int,
{
    num_integer::div_floor(x, y)
}

/// The share of `price` owed to a royalty of `percentage`, or `None` where
/// the product of the two does not fit in 128 bits.
pub fn royalty_share(price: u128, percentage: u128) -> (share: Option<u128>)
    ensures
        share is Some <==> price * percentage <= u128::MAX,
        share matches Some(s) ==> s == share_of(price, percentage),
{
    match price.checked_mul(percentage) {
        Some(product) => Some(div_floor(product, FIXED_POINT_ONE)),
        None => None,
    }
}

/// How a sale is split among the royalty recipients.
#[derive(Debug)]
pub struct Distribution {
    /// The payment to each recipient that is paid, in table order.
    pub payments: Vec<Payment>,
    /// The record of each of those payments.
    pub events: Vec<Event>,
    /// What the recipients are paid together.
    pub total: u128,
}

/// Works out what each entry of a royalty table is paid on the sale of
/// item `item_id` at `price`, or `None` where a share or their sum cannot
/// be computed.
pub fn distribute(
    table: &Vec<Royalty>,
    buyer: AccountId,
    item_id: u64,
    price: u128,
    resale: bool,
) -> (split: Option<Distribution>)
    ensures
        split is Some <==> distributable(table@, price, resale),
        split matches Some(split) ==> {
            &&& split.total == total_owed(table@, price, resale)
            &&& split.payments@ == royalty_payments(table@, buyer, price, resale)
            &&& split.events@ == royalty_events(table@, item_id, price, resale)
        },
{
    let mut payments: Vec<Payment> = Vec::new();
    let mut events: Vec<Event> = Vec::new();
    let mut total: u128 = 0;
    let mut i: usize = 0;
    while i < table.len()
        invariant
            i <= table.len(),
            total == total_owed(table@.take(i as int), price, resale),
            payments@ == royalty_payments(table@.take(i as int), buyer, price, resale),
            events@ == royalty_events(table@.take(i as int), item_id, price, resale),
            forall|j: int|
                0 <= j < i && is_paid(#[trigger] table@[j], resale) ==> price
                    * table@[j].percentage <= u128::MAX,
        decreases table.len() - i,
    {
        let royalty = &table[i];
        proof {
            let next = table@.take(i + 1);
            assert(next.drop_last() =~= table@.take(i as int));
            assert(next.last() == table@[i as int]);
            table@.lemma_filter_map_take_succ(payment_rule(buyer, price, resale), i as int);
            table@.lemma_filter_map_take_succ(event_rule(item_id, price, resale), i as int);
        }
        if !(resale && royalty.first_sale) {
            let share = match royalty_share(price, royalty.percentage) {
                Some(share) => share,
                None => {
                    assert(is_paid(table@[i as int], resale));
                    return None;
                },
            };
            proof {
                lemma_share_is_an_amount(price, royalty.percentage);
            }
            let sum = match total.checked_add(share) {
                Some(sum) => sum,
                None => {
                    proof {
                        lemma_total_owed_grows(table@, price, resale, i + 1);
                    }
                    return None;
                },
            };
            payments.push(Payment { from: buyer, to: royalty.address, amount: share as i128 });
            events.push(Event::RoyaltyPayment { item_id, to: royalty.address, amount: share });
            total = sum;
        }
        i = i + 1;
    }
    assert(table@.take(table.len() as int) =~= table@);
    Some(Distribution { payments, events, total })
}

} // verus!
