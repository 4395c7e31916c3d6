//! An escrow-controlled, limited-edition minting pool for a digital
//! collectible. A pool takes custody of a master asset's transfer authority,
//! validates a payment split across beneficiary wallets against a declared
//! rarity table, and authorizes numbered print copies of the asset until the
//! pool is redeemed and custody returns to its owner.

pub mod edition;
pub mod error;
pub mod instructions;
pub mod laws;
pub mod split;
pub mod state;

pub use crate::edition::{next_edition, next_edition_number};
pub use crate::error::{PoolError, PoolFailure};
pub use crate::instructions::{
    InitOutcome, InitPool, MintOneToken, MintOutcome, Redeem, init_pool, mint_one_print, redeem,
};
pub use crate::split::{Payment, payment_schedule, payments_total, share_amount, share_cut, total_paid};
pub use crate::state::{Address, Mint, Pool, Rarity, TokenAccount, Wallet, sum_shares};
