use vstd::prelude::*;

verus! {

/// A 256-bit public key, held as four 64-bit words.
///
/// The pool's logic only stores addresses and compares them for equality,
/// so the key material is modelled as plain words.
#[derive(Clone, Copy, PartialEq, Eq, Structural, Debug)]
pub struct Address {
    pub w0: u64,
    pub w1: u64,
    pub w2: u64,
    pub w3: u64,
}

/// One rarity-table entry: a beneficiary address and the integer percentage
/// of each mint payment owed to it.
#[derive(Clone, Copy, PartialEq, Eq, Structural, Debug)]
pub struct Rarity {
    pub address: Address,
    pub supply: u8,
}

/// What the pool's logic reads of a token-holding account on the ledger:
/// the asset type it holds and the principal that currently signs for it.
#[derive(Clone, Copy, PartialEq, Eq, Structural, Debug)]
pub struct TokenAccount {
    pub mint: Address,
    pub authority: Address,
}

/// What the pool's logic reads of a mint (asset-type) record.
#[derive(Clone, Copy, PartialEq, Eq, Structural, Debug)]
pub struct Mint {
    pub decimals: u8,
    pub supply: u64,
}

/// A signing principal together with its current balance.
#[derive(Clone, Copy, PartialEq, Eq, Structural, Debug)]
pub struct Wallet {
    pub address: Address,
    pub lamports: u64,
}

/// The persisted pool record, one per escrowed master asset.
///
/// `rand` and `bump` let the host reconstruct the pool's derived signing
/// identity deterministically; no secret material is stored. The rarity
/// table is fixed at initialization and never mutated afterwards, and
/// `available` only ever moves from `true` to `false`.
#[derive(Clone, Debug)]
pub struct Pool {
    pub owner: Address,
    pub nft_mint: Address,
    pub nft_account: Address,
    pub rand: Address,
    pub price: u64,
    pub rarity: Vec<Rarity>,
    pub available: bool,
    pub bump: u8,
}

/// The sum of the percentage shares of a rarity table.
pub open spec fn sum_shares(table: Seq<Rarity>) -> int
    decreases table.len(),
{
    if table.len() == 0 {
        0
    } else {
        sum_shares(table.drop_last()) + table.last().supply
    }
}

impl Pool {
    /// A pool record is well formed when its rarity table's shares sum to
    /// exactly one hundred. `init_pool` refuses any other table, and no
    /// operation mutates the table afterwards.
    pub open spec fn wf(self) -> bool {
        sum_shares(self.rarity@) == 100
    }
}

pub proof fn lemma_sum_shares_nonneg(table: Seq<Rarity>)
    ensures
        0 <= sum_shares(table),
    decreases table.len(),
{
    if table.len() > 0 {
        lemma_sum_shares_nonneg(table.drop_last());
    }
}

/// Extending a prefix of the table by one entry adds that entry's share.
pub proof fn lemma_sum_shares_take_succ(table: Seq<Rarity>, i: int)
    requires
        0 <= i < table.len(),
    ensures
        sum_shares(table.take(i + 1)) == sum_shares(table.take(i)) + table[i].supply,
{
    assert(table.take(i + 1).drop_last() =~= table.take(i));
    assert(table.take(i + 1).last() == table[i]);
}

/// A prefix of the table never sums to more than the whole table.
pub proof fn lemma_sum_shares_prefix_le(table: Seq<Rarity>, i: int)
    requires
        0 <= i <= table.len(),
    ensures
        sum_shares(table.take(i)) <= sum_shares(table),
    decreases table.len() - i,
{
    if i == table.len() {
        assert(table.take(i) =~= table);
    } else {
        lemma_sum_shares_take_succ(table, i);
        lemma_sum_shares_prefix_le(table, i + 1);
    }
}

/// No single entry's share exceeds the table's total.
pub proof fn lemma_share_le_sum(table: Seq<Rarity>, i: int)
    requires
        0 <= i < table.len(),
    ensures
        table[i].supply <= sum_shares(table),
{
    lemma_sum_shares_nonneg(table.take(i));
    lemma_sum_shares_take_succ(table, i);
    lemma_sum_shares_prefix_le(table, i + 1);
}

} // verus!
