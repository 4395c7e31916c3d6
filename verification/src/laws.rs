use vstd::prelude::*;
use crate::edition::next_edition;
use crate::error::{PoolError, PoolFailure};
use crate::instructions::{
    InitOutcome, InitPool, MintOneToken, Redeem, init_accepted, init_constraints_ok, init_failure,
    init_post, mint_accepted, redeem_accepted, redeemed,
};
use crate::state::{Pool, Rarity, sum_shares};

verus! {

/// A rarity table whose shares do not sum to exactly one hundred is always
/// rejected with the total-supply error, whatever the rest of the request
/// looks like, and nothing is persisted (`init_pool` returns no outcome on
/// an error).
pub proof fn lemma_invalid_table_rejected(a: InitPool, rarity: Seq<Rarity>)
    requires
        init_constraints_ok(a),
        sum_shares(rarity) != 100,
    ensures
        !init_accepted(a, rarity),
        init_failure(a) == PoolFailure::Program(PoolError::InvalidTotalSupply),
{
}

/// Immediately after any accepted initialization the pool is available and
/// its derived address holds the authority over the escrowed holding
/// account.
pub proof fn lemma_init_grants_custody(
    a: InitPool,
    bump: u8,
    rarity: Seq<Rarity>,
    price: u64,
    out: InitOutcome,
)
    requires
        init_post(a, bump, rarity, price, out),
    ensures
        out.pool.available,
        out.nft_account.authority == a.pool_address,
{
}

/// Redemption is one-way: after a pool has been redeemed, every mint
/// request against it is rejected, whatever its other arguments, because
/// the pool is no longer available.
pub proof fn lemma_no_mint_after_redeem(before: Pool, after: Pool, ra: Redeem, m: MintOneToken)
    requires
        redeem_accepted(before, ra),
        after == redeemed(before),
        m.pool == after,
    ensures
        !mint_accepted(m),
{
}

/// Only the stored owner can redeem: a request signed by anyone else is
/// rejected (and `redeem`'s contract then leaves the pool record, its
/// availability included, untouched).
pub proof fn lemma_redeem_requires_owner(pool: Pool, a: Redeem)
    requires
        a.owner != pool.owner,
    ensures
        !redeem_accepted(pool, a),
{
}

/// Edition numbers never collide: two mint requests that read distinct
/// states of the external edition counter are stamped with distinct
/// edition numbers. The edition minting service serializes the counter, so
/// two requests it accepts read distinct states.
pub proof fn lemma_distinct_editions(supply_a: u64, supply_b: u64)
    requires
        supply_a != supply_b,
    ensures
        next_edition(supply_a) != next_edition(supply_b),
{
}

} // verus!
