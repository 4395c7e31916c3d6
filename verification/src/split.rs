use vstd::prelude::*;
use vstd::arithmetic::div_mod::{
    lemma_div_is_ordered, lemma_div_multiples_vanish, lemma_div_pos_is_pos,
    lemma_fundamental_div_mod, lemma_mod_bound,
};
use vstd::arithmetic::mul::{
    lemma_mul_inequality, lemma_mul_is_distributive_add, lemma_mul_nonnegative,
    lemma_mul_upper_bound,
};
use crate::state::{Address, Rarity, lemma_share_le_sum, sum_shares};

verus! {

/// One payment a successful mint orders: a beneficiary and its cut.
#[derive(Clone, Copy, PartialEq, Eq, Structural, Debug)]
pub struct Payment {
    pub to: Address,
    pub amount: u64,
}

/// The cut owed to a beneficiary holding `supply` percent of a payment of
/// `price`: `price * supply / 100`, truncated toward zero. The truncation
/// remainder is not distributed; it stays with the payer by design.
pub open spec fn share_amount(price: u64, supply: u8) -> int {
    (price as int) * (supply as int) / 100
}

/// The payments a mint at `price` owes under `table`, one per entry and in
/// table order.
pub open spec fn payment_schedule(price: u64, table: Seq<Rarity>) -> Seq<Payment> {
    Seq::new(
        table.len(),
        |i: int|
            Payment {
                to: table[i].address,
                amount: share_amount(price, table[i].supply) as u64,
            },
    )
}

/// The total value a list of payments moves.
pub open spec fn payments_total(payments: Seq<Payment>) -> int
    decreases payments.len(),
{
    if payments.len() == 0 {
        0
    } else {
        payments_total(payments.drop_last()) + payments.last().amount
    }
}

/// A single cut is between zero and the full price whenever the share is at
/// most one hundred percent.
pub proof fn lemma_share_amount_bounds(price: u64, supply: u8)
    requires
        supply <= 100,
    ensures
        0 <= share_amount(price, supply) <= price,
{
    let p = price as int;
    let s = supply as int;
    lemma_mul_nonnegative(p, s);
    lemma_div_pos_is_pos(p * s, 100);
    lemma_mul_inequality(s, 100, p);
    lemma_div_is_ordered(p * s, p * 100, 100);
    lemma_div_multiples_vanish(p, 100);
}

/// Truncated division by one hundred is superadditive: splitting a sum in
/// two and truncating each part never yields more than truncating the sum.
pub proof fn lemma_div100_superadditive(a: int, b: int)
    requires
        0 <= a,
        0 <= b,
    ensures
        a / 100 + b / 100 <= (a + b) / 100,
{
    lemma_fundamental_div_mod(a, 100);
    lemma_fundamental_div_mod(b, 100);
    lemma_fundamental_div_mod(a + b, 100);
    lemma_mod_bound(a, 100);
    lemma_mod_bound(b, 100);
    lemma_mod_bound(a + b, 100);
}

/// The value a schedule moves, as a function of the price and the table.
pub open spec fn total_paid(price: u64, table: Seq<Rarity>) -> int
    decreases table.len(),
{
    if table.len() == 0 {
        0
    } else {
        total_paid(price, table.drop_last()) + share_amount(price, table.last().supply)
    }
}

/// The schedule's total never exceeds the price scaled by the table's share
/// sum, truncated.
pub proof fn lemma_total_paid_le_scaled(price: u64, table: Seq<Rarity>)
    ensures
        0 <= total_paid(price, table) <= (price as int) * sum_shares(table) / 100,
    decreases table.len(),
{
    let p = price as int;
    if table.len() == 0 {
    } else {
        let rest = table.drop_last();
        let s_last = table.last().supply as int;
        lemma_total_paid_le_scaled(price, rest);
        crate::state::lemma_sum_shares_nonneg(rest);
        lemma_mul_nonnegative(p, s_last);
        lemma_div_pos_is_pos(p * s_last, 100);
        lemma_mul_nonnegative(p, sum_shares(rest));
        lemma_div100_superadditive(p * sum_shares(rest), p * s_last);
        lemma_mul_is_distributive_add(p, sum_shares(rest), s_last);
    }
}

/// Value conservation for the split: under a valid rarity table the
/// truncated cuts together never move more than the price.
pub proof fn lemma_split_conserves_value(price: u64, table: Seq<Rarity>)
    requires
        sum_shares(table) == 100,
    ensures
        0 <= total_paid(price, table) <= price,
{
    lemma_total_paid_le_scaled(price, table);
    lemma_div_multiples_vanish(price as int, 100);
}

/// In a table whose shares sum to one hundred, every share is at most one
/// hundred.
pub proof fn lemma_wf_supplies_bounded(table: Seq<Rarity>)
    requires
        sum_shares(table) == 100,
    ensures
        forall|i: int| 0 <= i < table.len() ==> table[i].supply <= 100,
{
    assert forall|i: int| 0 <= i < table.len() implies table[i].supply <= 100 by {
        lemma_share_le_sum(table, i);
    }
}

/// The schedule's payments add up to `total_paid` whenever every share is
/// at most one hundred (so each cut fits its payment field exactly).
pub proof fn lemma_schedule_total(price: u64, table: Seq<Rarity>)
    requires
        forall|i: int| 0 <= i < table.len() ==> table[i].supply <= 100,
    ensures
        payments_total(payment_schedule(price, table)) == total_paid(price, table),
    decreases table.len(),
{
    if table.len() == 0 {
        assert(payment_schedule(price, table) =~= Seq::<Payment>::empty());
    } else {
        let rest = table.drop_last();
        lemma_schedule_total(price, rest);
        assert(payment_schedule(price, table).drop_last() =~= payment_schedule(price, rest));
        lemma_share_amount_bounds(price, table.last().supply);
    }
}

/// Compute one beneficiary's cut. The product is taken at double width, so
/// the truncated quotient is exact for every price.
pub fn share_cut(price: u64, supply: u8) -> (amount: u64)
    requires
        supply <= 100,
    ensures
        amount == share_amount(price, supply),
{
    proof {
        lemma_share_amount_bounds(price, supply);
        lemma_mul_upper_bound(price as int, u64::MAX as int, supply as int, 100);
    }
    let wide: u128 = (price as u128) * (supply as u128);
    (wide / 100) as u64
}

} // verus!
