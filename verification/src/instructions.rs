use vstd::prelude::*;
use crate::edition::{decode_master_edition_supply, master_edition_supply, next_edition, next_edition_number};
use crate::error::{PoolError, PoolFailure};
use crate::split::{
    Payment, lemma_schedule_total, lemma_split_conserves_value, lemma_wf_supplies_bounded,
    payment_schedule, payments_total, share_cut,
};
use crate::state::{
    Address, Mint, Pool, Rarity, TokenAccount, Wallet, lemma_share_le_sum,
    lemma_sum_shares_prefix_le, lemma_sum_shares_take_succ, sum_shares,
};

verus! {

/// The accounts an initialization presents. The host guarantees that
/// `owner` signed the request and that `pool_address` is the address
/// derived from `rand` and the bump, and it rejects the request otherwise;
/// both facts are outside this model.
pub struct InitPool {
    /// The signer creating the pool; it receives the asset back on redeem.
    pub owner: Address,
    /// The pool record's own derived address.
    pub pool_address: Address,
    /// The seed address the pool's identity is derived from.
    pub rand: Address,
    /// The master asset's mint address.
    pub nft_mint_address: Address,
    /// The address of the holding account being escrowed.
    pub nft_account_address: Address,
    /// The ledger state of the holding account.
    pub nft_account: TokenAccount,
}

/// What a successful initialization persists and orders: the new pool
/// record and the holding account's new state, its authority moved to the
/// pool's derived address.
#[derive(Clone, Debug)]
pub struct InitOutcome {
    pub pool: Pool,
    pub nft_account: TokenAccount,
}

/// The account constraints an initialization must meet: the escrowed
/// holding account is signed for by the caller and holds the declared
/// asset type.
pub open spec fn init_constraints_ok(a: InitPool) -> bool {
    a.nft_account.authority == a.owner && a.nft_account.mint == a.nft_mint_address
}

/// When an initialization goes through: its constraints hold and the
/// rarity table's shares sum to exactly one hundred.
pub open spec fn init_accepted(a: InitPool, rarity: Seq<Rarity>) -> bool {
    init_constraints_ok(a) && sum_shares(rarity) == 100
}

/// The failure an unaccepted initialization reports: constraints are
/// checked before the table.
pub open spec fn init_failure(a: InitPool) -> PoolFailure {
    if !init_constraints_ok(a) {
        PoolFailure::ConstraintRaw
    } else {
        PoolFailure::Program(PoolError::InvalidTotalSupply)
    }
}

/// Relates an accepted initialization to what it persists: every pool
/// field comes from the request, the pool is available, and the holding
/// account's authority is now the pool's derived address.
pub open spec fn init_post(
    a: InitPool,
    bump: u8,
    rarity: Seq<Rarity>,
    price: u64,
    out: InitOutcome,
) -> bool {
    &&& out.pool.owner == a.owner
    &&& out.pool.nft_mint == a.nft_mint_address
    &&& out.pool.nft_account == a.nft_account_address
    &&& out.pool.rand == a.rand
    &&& out.pool.price == price
    &&& out.pool.rarity@ == rarity
    &&& out.pool.available == true
    &&& out.pool.bump == bump
    &&& out.nft_account.mint == a.nft_account.mint
    &&& out.nft_account.authority == a.pool_address
}

/// Create a pool over an escrowed master asset.
///
/// Validates the rarity table, orders the holding account's authority moved
/// from the caller to the pool's derived address, and persists the record
/// with `available` set. On any failure nothing is persisted and no
/// authority moves.
#[verifier::loop_isolation(false)]
pub fn init_pool(a: &InitPool, bump: u8, rarity: Vec<Rarity>, price: u64) -> (r: Result<
    InitOutcome,
    PoolFailure,
>)
    ensures
        r is Ok <==> init_accepted(*a, rarity@),
        r is Ok ==> init_post(*a, bump, rarity@, price, r->Ok_0) && r->Ok_0.pool.wf(),
        r is Err ==> r->Err_0 == init_failure(*a),
{
    if !(a.nft_account.authority == a.owner && a.nft_account.mint == a.nft_mint_address) {
        return Err(PoolFailure::ConstraintRaw);
    }
    let n = rarity.len();
    let mut total: u64 = 0;
    let mut i: usize = 0;
    while i < n
        invariant
            i <= n,
            n == rarity@.len(),
            total == sum_shares(rarity@.take(i as int)),
            total <= 100,
        decreases n - i,
    {
        proof {
            lemma_sum_shares_take_succ(rarity@, i as int);
        }
        total = total + rarity[i].supply as u64;
        if total > 100 {
            proof {
                lemma_sum_shares_prefix_le(rarity@, i as int + 1);
            }
            return Err(PoolFailure::Program(PoolError::InvalidTotalSupply));
        }
        i = i + 1;
    }
    assert(rarity@.take(n as int) =~= rarity@);
    if total != 100 {
        return Err(PoolFailure::Program(PoolError::InvalidTotalSupply));
    }
    // The authority transfer service moves the holding account's authority
    // to the pool's derived address; the record is then persisted.
    let pool = Pool {
        owner: a.owner,
        nft_mint: a.nft_mint_address,
        nft_account: a.nft_account_address,
        rand: a.rand,
        price: price,
        rarity: rarity,
        available: true,
        bump: bump,
    };
    let nft_account = TokenAccount { mint: a.nft_account.mint, authority: a.pool_address };
    Ok(InitOutcome { pool, nft_account })
}

/// The accounts a redemption presents besides the pool record itself. The
/// host guarantees that `owner` signed the request.
pub struct Redeem {
    /// The signer requesting redemption.
    pub owner: Address,
    /// The pool record's own derived address.
    pub pool_address: Address,
    /// The address of the escrowed holding account.
    pub nft_account_address: Address,
    /// The ledger state of the escrowed holding account.
    pub nft_account: TokenAccount,
}

/// When a redemption goes through: the signer is the stored owner, the
/// presented holding account is the stored one, and the pool's derived
/// address still signs for it.
pub open spec fn redeem_accepted(pool: Pool, a: Redeem) -> bool {
    &&& pool.owner == a.owner
    &&& pool.nft_account == a.nft_account_address
    &&& a.nft_account.authority == a.pool_address
}

/// The pool record after a successful redemption: the same record with its
/// availability gone, permanently.
pub open spec fn redeemed(pool: Pool) -> Pool {
    Pool { available: false, ..pool }
}

/// Close the pool and return custody.
///
/// Only the stored owner may redeem, and only the stored holding account,
/// which the pool must still sign for. On success the authority transfer
/// service moves the holding account's authority back to the owner, signed
/// with the pool's reconstructed derivation proof, and the pool becomes
/// permanently unavailable. On failure the pool record is untouched.
pub fn redeem(pool: &mut Pool, a: &Redeem) -> (r: Result<TokenAccount, PoolFailure>)
    ensures
        r is Ok <==> redeem_accepted(*old(pool), *a),
        r is Ok ==> *final(pool) == redeemed(*old(pool)) && r->Ok_0 == (TokenAccount {
            mint: a.nft_account.mint,
            authority: old(pool).owner,
        }),
        r is Err ==> *final(pool) == *old(pool) && r->Err_0 == PoolFailure::ConstraintRaw,
        final(pool).available ==> old(pool).available,
        old(pool).wf() ==> final(pool).wf(),
{
    if !(pool.owner == a.owner && pool.nft_account == a.nft_account_address) {
        return Err(PoolFailure::ConstraintRaw);
    }
    if !(a.nft_account.authority == a.pool_address) {
        return Err(PoolFailure::ConstraintRaw);
    }
    // The authority transfer service moves the holding account's authority
    // back to the stored owner, signed with the pool's derivation proof.
    let out = TokenAccount { mint: a.nft_account.mint, authority: pool.owner };
    pool.available = false;
    Ok(out)
}

/// The accounts a mint request presents. The host guarantees that `owner`
/// (the payer) signed the request; the beneficiary list arrives alongside
/// the named accounts.
pub struct MintOneToken {
    /// The payer: the mint's signer, paying the pool's price.
    pub owner: Wallet,
    /// The pool record the request runs against.
    pub pool: Pool,
    /// The pool record's own derived address.
    pub pool_address: Address,
    /// The master asset's mint address.
    pub nft_mint_address: Address,
    /// The address of the escrowed holding account.
    pub nft_account_address: Address,
    /// The ledger state of the escrowed holding account.
    pub nft_account: TokenAccount,
    /// The fresh mint that will represent the new print; it must have no
    /// decimals and a supply of exactly one.
    pub new_mint: Mint,
    /// The raw bytes of the master asset's edition record, holding the
    /// print counter.
    pub nft_master_edition_data: Vec<u8>,
    /// The beneficiary accounts supplied with the request; they must match
    /// the stored rarity table exactly.
    pub treasury_wallets: Vec<Address>,
}

/// What a successful mint orders: one payment per rarity entry, in table
/// order, and a request to the edition minting service for this edition
/// number, signed with the pool's derivation proof.
#[derive(Clone, Debug)]
pub struct MintOutcome {
    pub payments: Vec<Payment>,
    pub edition_number: u64,
}

/// The supplied beneficiary list matches the stored table in length, order
/// and addresses.
pub open spec fn wallets_match(wallets: Seq<Address>, table: Seq<Rarity>) -> bool {
    &&& wallets.len() == table.len()
    &&& forall|i: int| 0 <= i < table.len() ==> wallets[i] == table[i].address
}

/// The account constraints a mint must meet: the presented holding account
/// is the pool's stored one and holds the declared asset type, the pool is
/// still available, and the new print's mint is fresh.
pub open spec fn mint_constraints_ok(a: MintOneToken) -> bool {
    &&& a.pool.nft_account == a.nft_account_address
    &&& a.pool.available
    &&& a.nft_account.mint == a.nft_mint_address
    &&& a.new_mint.decimals == 0 && a.new_mint.supply == 1
}

/// When a mint goes through: its constraints hold, the payer can cover the
/// price, the beneficiary list matches the table, and the master-edition
/// record decodes to a counter that can still be advanced.
pub open spec fn mint_accepted(a: MintOneToken) -> bool {
    &&& mint_constraints_ok(a)
    &&& a.owner.lamports >= a.pool.price
    &&& wallets_match(a.treasury_wallets@, a.pool.rarity@)
    &&& a.nft_master_edition_data@.len() > 0
    &&& master_edition_supply(a.nft_master_edition_data@) is Some
    &&& master_edition_supply(a.nft_master_edition_data@)->0 < u64::MAX
}

/// The failure an unaccepted mint reports, in the order the checks run:
/// account linkage, the remaining constraints, the payer's balance, the
/// beneficiary list, then the edition record.
pub open spec fn mint_failure(a: MintOneToken) -> PoolFailure {
    if a.pool.nft_account != a.nft_account_address {
        PoolFailure::ConstraintHasOne
    } else if !(a.pool.available && a.nft_account.mint == a.nft_mint_address
        && a.new_mint.decimals == 0 && a.new_mint.supply == 1) {
        PoolFailure::ConstraintRaw
    } else if a.owner.lamports < a.pool.price {
        PoolFailure::Program(PoolError::NotEnoughSol)
    } else if !wallets_match(a.treasury_wallets@, a.pool.rarity@) {
        PoolFailure::Program(PoolError::InvalidTreasuryWallets)
    } else if !(a.nft_master_edition_data@.len() > 0
        && master_edition_supply(a.nft_master_edition_data@) is Some) {
        PoolFailure::BadEditionRecord
    } else {
        PoolFailure::EditionNumberOverflow
    }
}

/// Authorize one print of the master asset.
///
/// Validates the payer's balance and the beneficiary list against the
/// stored rarity table, orders each beneficiary's truncated cut paid in
/// table order, reads the edition counter from the master-edition record,
/// and requests the next edition number from the edition minting service.
/// The pool record itself is never mutated. On any failure nothing is
/// ordered; the host's all-or-nothing transaction semantics make every
/// abort effect-free.
#[verifier::loop_isolation(false)]
pub fn mint_one_print(a: &MintOneToken) -> (r: Result<MintOutcome, PoolFailure>)
    requires
        a.pool.wf(),
    ensures
        r is Ok <==> mint_accepted(*a),
        r is Ok ==> r->Ok_0.payments@ == payment_schedule(a.pool.price, a.pool.rarity@)
            && payments_total(r->Ok_0.payments@) <= a.pool.price
            && r->Ok_0.edition_number == next_edition(
            master_edition_supply(a.nft_master_edition_data@)->0,
        ),
        r is Err ==> r->Err_0 == mint_failure(*a),
{
    if a.pool.nft_account != a.nft_account_address {
        return Err(PoolFailure::ConstraintHasOne);
    }
    if !a.pool.available {
        return Err(PoolFailure::ConstraintRaw);
    }
    if a.nft_account.mint != a.nft_mint_address {
        return Err(PoolFailure::ConstraintRaw);
    }
    if !(a.new_mint.decimals == 0 && a.new_mint.supply == 1) {
        return Err(PoolFailure::ConstraintRaw);
    }
    if a.owner.lamports < a.pool.price {
        return Err(PoolFailure::Program(PoolError::NotEnoughSol));
    }
    let n = a.pool.rarity.len();
    if a.treasury_wallets.len() != n {
        return Err(PoolFailure::Program(PoolError::InvalidTreasuryWallets));
    }
    let ghost schedule = payment_schedule(a.pool.price, a.pool.rarity@);
    let mut payments: Vec<Payment> = Vec::new();
    let mut i: usize = 0;
    while i < n
        invariant
            i <= n,
            n == a.pool.rarity@.len(),
            a.treasury_wallets@.len() == n,
            sum_shares(a.pool.rarity@) == 100,
            schedule == payment_schedule(a.pool.price, a.pool.rarity@),
            payments@ == schedule.take(i as int),
            forall|j: int| 0 <= j < i ==> a.treasury_wallets@[j] == a.pool.rarity@[j].address,
        decreases n - i,
    {
        if a.treasury_wallets[i] != a.pool.rarity[i].address {
            assert(!wallets_match(a.treasury_wallets@, a.pool.rarity@));
            return Err(PoolFailure::Program(PoolError::InvalidTreasuryWallets));
        }
        proof {
            lemma_share_le_sum(a.pool.rarity@, i as int);
        }
        // One transfer per entry, payer to beneficiary, so that a failure
        // partway aborts the whole request atomically.
        let amount = share_cut(a.pool.price, a.pool.rarity[i].supply);
        payments.push(Payment { to: a.pool.rarity[i].address, amount });
        assert(payments@ =~= schedule.take(i as int + 1));
        i = i + 1;
    }
    assert(payments@ =~= schedule);
    if a.nft_master_edition_data.len() == 0 {
        return Err(PoolFailure::BadEditionRecord);
    }
    let current_supply = match decode_master_edition_supply(
        a.nft_master_edition_data.as_slice(),
    ) {
        Some(supply) => supply,
        None => {
            return Err(PoolFailure::BadEditionRecord);
        },
    };
    if current_supply == u64::MAX {
        return Err(PoolFailure::EditionNumberOverflow);
    }
    // The edition minting service stamps the copy with this number, the
    // pool signing as authority with its derivation proof.
    let edition_number = next_edition_number(current_supply);
    proof {
        lemma_wf_supplies_bounded(a.pool.rarity@);
        lemma_schedule_total(a.pool.price, a.pool.rarity@);
        lemma_split_conserves_value(a.pool.price, a.pool.rarity@);
    }
    Ok(MintOutcome { payments, edition_number })
}

} // verus!
