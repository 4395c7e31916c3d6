use print_maker::{Address, InitPool, Mint, MintOneToken, Rarity, TokenAccount, Wallet, init_pool, mint_one_print, share_cut};

fn addr(n: u64) -> Address {
    Address { w0: n, w1: 0, w2: 0, w3: 0 }
}

fn master_edition_bytes(supply: u64) -> Vec<u8> {
    let mut data = vec![0u8; 282];
    data[0] = 6;
    data[1..9].copy_from_slice(&supply.to_le_bytes());
    data
}

#[test]
fn cut_is_exact_on_even_splits() {
    assert_eq!(share_cut(1000, 60), 600);
    assert_eq!(share_cut(1000, 40), 400);
    assert_eq!(share_cut(1000, 100), 1000);
    assert_eq!(share_cut(1000, 0), 0);
}

#[test]
fn cut_truncates_toward_zero() {
    assert_eq!(share_cut(99, 50), 49);
    assert_eq!(share_cut(1, 99), 0);
    assert_eq!(share_cut(101, 33), 33);
}

#[test]
fn cut_of_largest_price_does_not_overflow() {
    assert_eq!(share_cut(u64::MAX, 100), u64::MAX);
    assert_eq!(share_cut(u64::MAX, 50), u64::MAX / 2);
}

#[test]
fn truncation_remainder_stays_with_the_payer() {
    let owner = addr(1);
    let nft_mint = addr(3);
    let a = InitPool {
        owner,
        pool_address: addr(2),
        rand: addr(900),
        nft_mint_address: nft_mint,
        nft_account_address: addr(4),
        nft_account: TokenAccount { mint: nft_mint, authority: owner },
    };
    let table = vec![Rarity { address: addr(10), supply: 50 }, Rarity { address: addr(11), supply: 50 }];
    let pool = init_pool(&a, 255, table, 99).unwrap().pool;
    let m = MintOneToken {
        owner: Wallet { address: addr(77), lamports: 99 },
        pool,
        pool_address: addr(2),
        nft_mint_address: nft_mint,
        nft_account_address: addr(4),
        nft_account: TokenAccount { mint: nft_mint, authority: addr(2) },
        new_mint: Mint { decimals: 0, supply: 1 },
        nft_master_edition_data: master_edition_bytes(0),
        treasury_wallets: vec![addr(10), addr(11)],
    };
    let out = mint_one_print(&m).unwrap();
    let total: u64 = out.payments.iter().map(|p| p.amount).sum();
    assert_eq!(out.payments[0].amount, 49);
    assert_eq!(out.payments[1].amount, 49);
    assert_eq!(total, 98);
    assert!(total <= 99);
}
