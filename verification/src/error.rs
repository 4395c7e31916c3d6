use vstd::prelude::*;

verus! {

/// The validation failures the pool program declares for its callers.
#[derive(Clone, Copy, PartialEq, Eq, Structural, Debug)]
pub enum PoolError {
    /// A declared metadata record failed the host-side type check
    /// (reserved; no current flow raises it).
    InvalidMetadata,
    /// The rarity table's shares do not sum to exactly one hundred.
    InvalidTotalSupply,
    /// The payer's balance is below the pool's price.
    NotEnoughSol,
    /// The supplied beneficiary list does not match the stored rarity
    /// table in length, order and addresses.
    InvalidTreasuryWallets,
}

/// Every way an instruction can abort. Each abort is categorical and
/// leaves no partial effect behind.
#[derive(Clone, Copy, PartialEq, Eq, Structural, Debug)]
pub enum PoolFailure {
    /// One of the program's own declared validation errors.
    Program(PoolError),
    /// An account-linkage check between the pool record and a supplied
    /// account failed.
    ConstraintHasOne,
    /// An explicit account constraint failed: wrong signer, wrong holding
    /// account, an unavailable pool, or an ill-formed print mint.
    ConstraintRaw,
    /// The master-edition record's bytes do not decode to a valid record.
    BadEditionRecord,
    /// The edition counter is already at the largest representable number
    /// and cannot be advanced.
    EditionNumberOverflow,
}

} // verus!
