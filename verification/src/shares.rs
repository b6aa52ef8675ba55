//! Integer arithmetic of the settlement: the creator's fee and the pro-rata
//! share of a contributor. Every quotient is rounded down, and a product is
//! formed in full before it is divided.

use vstd::arithmetic::div_mod::{
    lemma_div_is_ordered, lemma_div_multiples_vanish, lemma_div_pos_is_pos, lemma_fundamental_div_mod,
    lemma_mod_bound, lemma_basic_div,
};
use vstd::arithmetic::mul::{lemma_mul_inequality, lemma_mul_is_commutative, lemma_mul_nonnegative};
use vstd::prelude::*;

verus! {

/// Percentage of the pooled deposits that goes to the creator of a surge.
pub const CREATOR_FEE_PERCENT: u64 = 5;

/// The creator's fee on a pool of `deposited`, rounded down.
pub open spec fn fee_of(deposited: int) -> int {
    deposited * (CREATOR_FEE_PERCENT as int) / 100
}

/// What is left of the pool for the purchase once the fee is set aside.
pub open spec fn deployable_of(deposited: int) -> int {
    deposited - fee_of(deposited)
}

/// The most that may be offered to the exchange: the caller's limit, capped
/// by what is left of the pool after the fee.
pub open spec fn spend_limit_of(max_cost: int, deposited: int) -> int {
    if max_cost <= deployable_of(deposited) {
        max_cost
    } else {
        deployable_of(deposited)
    }
}

/// The share of `pool` that falls to a deposit of `deposit` out of `total`,
/// rounded down: the product first, then the quotient.
pub open spec fn share_of(deposit: int, pool: int, total: int) -> int {
    deposit * pool / total
}

/// The fee never exceeds the pool it is taken from.
pub proof fn lemma_fee_within_pool(deposited: int)
    requires
        0 <= deposited,
    ensures
        0 <= fee_of(deposited) <= deposited,
        0 <= deployable_of(deposited) <= deposited,
{
    assert(0 <= deposited * 5 / 100 <= deposited) by (nonlinear_arith)
        requires
            0 <= deposited,
    ;
}

/// Computes the creator's fee, `None` when five times the pool leaves 64 bits.
pub fn creator_fee(deposited: u64) -> (fee: Option<u64>)
    ensures
        fee is Some <==> deposited * CREATOR_FEE_PERCENT <= u64::MAX,
        fee matches Some(amount) ==> amount == fee_of(deposited as int),
{
    match deposited.checked_mul(CREATOR_FEE_PERCENT) {
        Some(scaled) => Some(scaled / 100),
        None => None,
    }
}

/// A deposit that is part of the total gets a share that is part of the pool.
pub proof fn lemma_share_within_pool(deposit: int, pool: int, total: int)
    requires
        0 <= deposit <= total,
        0 < total,
        0 <= pool,
    ensures
        0 <= share_of(deposit, pool, total) <= pool,
{
    lemma_mul_nonnegative(deposit, pool);
    lemma_div_pos_is_pos(deposit * pool, total);
    lemma_mul_inequality(deposit, total, pool);
    lemma_div_is_ordered(deposit * pool, total * pool, total);
    lemma_mul_is_commutative(total, pool);
    lemma_div_multiples_vanish(pool, total);
}

/// The share times the total never exceeds the deposit times the pool, and
/// misses it by less than the total: rounding loses less than one unit.
pub proof fn lemma_share_rounds_down(deposit: int, pool: int, total: int)
    requires
        0 < total,
    ensures
        share_of(deposit, pool, total) * total <= deposit * pool,
        deposit * pool < (share_of(deposit, pool, total) + 1) * total,
{
    let product = deposit * pool;
    lemma_fundamental_div_mod(product, total);
    lemma_mod_bound(product, total);
    lemma_mul_is_commutative(total, product / total);
    assert((product / total + 1) * total == (product / total) * total + total) by (nonlinear_arith);
}

/// Dividing first loses everything: a deposit below the total has the
/// quotient zero, whatever the pool, while the product divided afterwards
/// is never smaller.
pub proof fn lemma_divide_first_truncates(deposit: int, pool: int, total: int)
    requires
        0 <= deposit < total,
        0 <= pool,
    ensures
        (deposit / total) * pool == 0,
        (deposit / total) * pool <= share_of(deposit, pool, total),
{
    lemma_basic_div(deposit, total);
    lemma_mul_nonnegative(deposit, pool);
    lemma_div_pos_is_pos(deposit * pool, total);
    assert(0 * pool == 0);
}

/// Computes the pro-rata share in 128 bits: `None` when the total is zero or
/// the share does not fit in 64 bits.
pub fn pro_rata_share(deposit: u64, pool: u64, total: u64) -> (share: Option<u64>)
    ensures
        share is Some <==> total > 0 && share_of(deposit as int, pool as int, total as int)
            <= u64::MAX,
        share matches Some(amount) ==> amount == share_of(deposit as int, pool as int, total as int),
{
    if total == 0 {
        return None;
    }
    assert(deposit * pool <= u128::MAX) by (nonlinear_arith)
        requires
            deposit <= u64::MAX,
            pool <= u64::MAX,
    ;
    let product: u128 = (deposit as u128) * (pool as u128);
    let quotient: u128 = product / (total as u128);
    if quotient > u64::MAX as u128 {
        None
    } else {
        Some(quotient as u64)
    }
}

} // verus!
