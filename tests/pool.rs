use cnft_pool::instructions::deposit_cnft::check_deposit;
use cnft_pool::state::payment_amount;
use cnft_pool::{
    claim_cnft, deposit_cnft, deposit_tokens, init_pool, swap_cnft_to_token, swap_token_to_cnft,
    Address, AnchorMetadataArgs, CnftClaimCoupon, Collection, Creator, DepositCnftArgs, ErrorCode,
    HybridPoolConfig, SwapCnftArgs, TokenProgramVersion, TokenStandard,
};

fn addr(b: u8) -> Address {
    Address { bytes: [b; 32] }
}

fn record(name: &str, collection: Option<Address>) -> AnchorMetadataArgs {
    AnchorMetadataArgs {
        name: name.to_string(),
        symbol: "ITM".to_string(),
        uri: format!("https://example.org/{}.json", name),
        seller_fee_basis_points: 500,
        primary_sale_happened: false,
        is_mutable: true,
        edition_nonce: Some(1),
        token_standard: Some(TokenStandard::NonFungible),
        collection: collection.map(|key| Collection { verified: true, key }),
        uses: None,
        token_program_version: TokenProgramVersion::Original,
        creators: vec![Creator { address: addr(9), verified: true, share: 100 }],
    }
}

fn true_hash(m: &AnchorMetadataArgs) -> [u8; 32] {
    mpl_bubblegum::hash::hash_metadata(&m.convert()).unwrap()
}

fn deposit_args(m: AnchorMetadataArgs, pos: u8, nonce: u64) -> DepositCnftArgs {
    DepositCnftArgs {
        root: [0; 32],
        data_hash: true_hash(&m),
        creator_hash: [0; 32],
        nonce,
        index: nonce as u32,
        pos,
        metadata: m,
    }
}

fn pool_with(collections: Vec<Address>, price: u64) -> HybridPoolConfig {
    init_pool(addr(1), addr(2), 254, collections, price).unwrap()
}

#[test]
fn create_pool_price_below_minimum_fails() {
    assert_eq!(init_pool(addr(1), addr(2), 0, vec![addr(7)], 999).err(), Some(ErrorCode::PriceTooLow));
    assert_eq!(init_pool(addr(1), addr(2), 0, vec![], 0).err(), Some(ErrorCode::PriceTooLow));
}

#[test]
fn create_pool_price_at_minimum_succeeds() {
    let pool = init_pool(addr(1), addr(2), 7, vec![addr(7)], 1000).unwrap();
    assert_eq!(pool.price, 1000);
    assert_eq!(pool.bump, 7);
    assert!(pool.authority == addr(1));
    assert!(pool.token == addr(2));
    assert!(pool.items.is_empty());
    assert!(!pool.initiated);
}

#[test]
fn create_pool_four_collections_fails() {
    let cs = vec![addr(3), addr(4), addr(5), addr(6)];
    assert_eq!(init_pool(addr(1), addr(2), 0, cs, 5000).err(), Some(ErrorCode::TooManyCollections));
}

#[test]
fn create_pool_collection_check_comes_before_price_check() {
    let cs = vec![addr(3), addr(4), addr(5), addr(6)];
    assert_eq!(init_pool(addr(1), addr(2), 0, cs, 10).err(), Some(ErrorCode::TooManyCollections));
}

#[test]
fn create_pool_three_collections_succeeds() {
    let pool = init_pool(addr(1), addr(2), 0, vec![addr(3), addr(4), addr(5)], 1000).unwrap();
    assert_eq!(pool.collections.len(), 3);
}

#[test]
fn deposit_with_altered_hash_fails_and_adds_nothing() {
    let mut pool = pool_with(vec![addr(7)], 1000);
    let mut args = deposit_args(record("a", Some(addr(7))), 0, 0);
    args.data_hash[5] ^= 0x01;
    let before = pool.items.clone();
    assert_eq!(deposit_cnft(&mut pool, &args, addr(8), 1).err(), Some(ErrorCode::InvalidDataHash));
    assert_eq!(pool.items, before);
    assert!(pool.items.is_empty());
}

#[test]
fn deposit_with_hash_of_other_record_fails() {
    let mut pool = pool_with(vec![addr(7)], 1000);
    let mut args = deposit_args(record("a", Some(addr(7))), 0, 0);
    args.metadata.name = "b".to_string();
    assert_eq!(deposit_cnft(&mut pool, &args, addr(8), 1).err(), Some(ErrorCode::InvalidDataHash));
    assert!(pool.items.is_empty());
}

#[test]
fn deposit_of_foreign_collection_is_rejected() {
    let mut pool = pool_with(vec![addr(7)], 1000);
    let args = deposit_args(record("a", Some(addr(6))), 0, 0);
    assert_eq!(deposit_cnft(&mut pool, &args, addr(8), 1).err(), Some(ErrorCode::InvalidCollection));
    assert!(pool.items.is_empty());
}

#[test]
fn deposit_of_allowed_collection_is_accepted() {
    let mut pool = pool_with(vec![addr(6), addr(7)], 1000);
    let args = deposit_args(record("a", Some(addr(7))), 4, 0);
    let store = deposit_cnft(&mut pool, &args, addr(8), 1).unwrap();
    assert_eq!(pool.items, vec![4]);
    assert_eq!(store.bump, 1);
}

#[test]
fn deposit_without_collection_is_accepted() {
    let mut pool = pool_with(vec![addr(7)], 1000);
    let args = deposit_args(record("a", None), 3, 0);
    assert!(deposit_cnft(&mut pool, &args, addr(8), 1).is_ok());
    assert_eq!(pool.items, vec![3]);
}

#[test]
fn deposit_into_occupied_slot_fails() {
    let mut pool = pool_with(vec![addr(7)], 1000);
    let a = deposit_args(record("a", Some(addr(7))), 2, 0);
    let b = deposit_args(record("b", Some(addr(7))), 2, 1);
    assert!(deposit_cnft(&mut pool, &a, addr(8), 1).is_ok());
    assert_eq!(deposit_cnft(&mut pool, &b, addr(8), 1).err(), Some(ErrorCode::SlotOccupied));
    assert_eq!(pool.items, vec![2]);
}

#[test]
fn deposit_records_the_asset_identity() {
    let mut pool = pool_with(vec![], 1000);
    let args = deposit_args(record("a", None), 0, 42);
    let store = deposit_cnft(&mut pool, &args, addr(8), 1).unwrap();
    let tree = anchor_lang::solana_program::pubkey::Pubkey::new_from_array([8; 32]);
    let expected = mpl_bubblegum::utils::get_asset_id(&tree, 42).to_bytes();
    assert_eq!(store.asset_id.bytes, expected);
    assert_ne!(store.asset_id.bytes, [8; 32]);
}

#[test]
fn check_deposit_leaves_pool_alone() {
    let pool = pool_with(vec![addr(7)], 1000);
    let args = deposit_args(record("a", Some(addr(7))), 0, 0);
    assert_eq!(check_deposit(&pool, &args.metadata, &args.data_hash, 0), Ok(()));
    assert!(pool.items.is_empty());
}

#[test]
fn funding_an_empty_pool_fails() {
    let mut pool = pool_with(vec![], 1000);
    assert_eq!(deposit_tokens(&mut pool, 6).err(), Some(ErrorCode::EmptyPool));
    assert!(!pool.initiated);
}

#[test]
fn funding_pays_price_for_every_item() {
    let mut pool = pool_with(vec![], 1500);
    for (i, name) in ["a", "b", "c"].iter().enumerate() {
        let args = deposit_args(record(name, None), i as u8, i as u64);
        deposit_cnft(&mut pool, &args, addr(8), 1).unwrap();
    }
    assert_eq!(deposit_tokens(&mut pool, 2), Ok(1500 * 3 * 100));
    assert!(pool.initiated);
}

#[test]
fn funding_amount_overflow_is_refused() {
    let mut pool = pool_with(vec![], 1000);
    let args = deposit_args(record("a", None), 0, 0);
    deposit_cnft(&mut pool, &args, addr(8), 1).unwrap();
    assert_eq!(deposit_tokens(&mut pool, 17).err(), Some(ErrorCode::AmountOverflow));
    assert!(!pool.initiated);
    assert_eq!(deposit_tokens(&mut pool, 16), Ok(10_000_000_000_000_000_000));
}

#[test]
fn payment_amounts() {
    assert_eq!(payment_amount(1000, 1, 0), Some(1000));
    assert_eq!(payment_amount(1000, 1, 6), Some(1_000_000_000));
    assert_eq!(payment_amount(1234, 5, 3), Some(6_170_000));
    assert_eq!(payment_amount(0, 5, 30), Some(0));
    assert_eq!(payment_amount(1000, 1, 17), None);
    assert_eq!(payment_amount(u64::MAX, 2, 0), None);
    assert_eq!(payment_amount(u64::MAX, 1, 0), Some(u64::MAX));
}

#[test]
fn swap_item_for_token_pays_exactly_the_unit_price() {
    let mut pool = pool_with(vec![addr(7)], 1000);
    let m = record("a", Some(addr(7)));
    let args = SwapCnftArgs {
        root: [0; 32],
        data_hash: true_hash(&m),
        creator_hash: [0; 32],
        nonce: 3,
        index: 3,
        pos: 5,
        metadata: m,
    };
    let (store, amount) = swap_cnft_to_token(&mut pool, &args, addr(8), 2, 6).unwrap();
    assert_eq!(amount, 1_000_000_000);
    assert_eq!(store.bump, 2);
    assert_eq!(pool.items, vec![5]);

    let m2 = record("b", Some(addr(7)));
    let args2 = SwapCnftArgs {
        root: [0; 32],
        data_hash: true_hash(&m2),
        creator_hash: [0; 32],
        nonce: 4,
        index: 4,
        pos: 6,
        metadata: m2,
    };
    let (_, amount2) = swap_cnft_to_token(&mut pool, &args2, addr(8), 2, 0).unwrap();
    assert_eq!(amount2, 1000);
}

#[test]
fn swap_item_for_token_with_bad_hash_changes_nothing() {
    let mut pool = pool_with(vec![addr(7)], 1000);
    let m = record("a", Some(addr(7)));
    let mut hash = true_hash(&m);
    hash[0] ^= 0x80;
    let args = SwapCnftArgs {
        root: [0; 32],
        data_hash: hash,
        creator_hash: [0; 32],
        nonce: 3,
        index: 3,
        pos: 5,
        metadata: m,
    };
    assert_eq!(swap_cnft_to_token(&mut pool, &args, addr(8), 2, 6).err(), Some(ErrorCode::InvalidDataHash));
    assert!(pool.items.is_empty());
}

#[test]
fn swap_item_for_token_overflowing_payment_changes_nothing() {
    let mut pool = pool_with(vec![], 1000);
    let m = record("a", None);
    let args = SwapCnftArgs {
        root: [0; 32],
        data_hash: true_hash(&m),
        creator_hash: [0; 32],
        nonce: 3,
        index: 3,
        pos: 5,
        metadata: m,
    };
    assert_eq!(swap_cnft_to_token(&mut pool, &args, addr(8), 2, 20).err(), Some(ErrorCode::AmountOverflow));
    assert!(pool.items.is_empty());
}

#[test]
fn swap_token_for_item_on_empty_pool_fails() {
    let pool = pool_with(vec![], 1000);
    assert_eq!(swap_token_to_cnft(&pool, addr(5), 1, 6, 77).err(), Some(ErrorCode::EmptyPool));
}

#[test]
fn end_to_end_deposit_swap_and_claim() {
    let x = addr(7);
    let mut pool = pool_with(vec![x], 1000);
    let a = deposit_args(record("a", Some(x)), 0, 0);
    let b = deposit_args(record("b", Some(x)), 1, 1);
    deposit_cnft(&mut pool, &a, addr(8), 1).unwrap();
    deposit_cnft(&mut pool, &b, addr(8), 1).unwrap();
    assert_eq!(pool.items, vec![0, 1]);

    // entropy 1 aims at byte 2: slot 0 lies 254 away, slot 1 lies 255 away
    let redeemer = addr(5);
    let (coupon, paid) = swap_token_to_cnft(&pool, redeemer, 9, 6, 1).unwrap();
    assert_eq!(coupon.coupon, 0);
    assert!(coupon.owner == redeemer);
    assert_eq!(paid, 1_000_000_000);
    assert_eq!(pool.items, vec![0, 1]);

    let mut held: Option<CnftClaimCoupon> = Some(coupon);
    assert_eq!(claim_cnft(&mut pool, redeemer, &mut held), Ok(0));
    assert_eq!(pool.items, vec![1]);
    assert!(held.is_none());
    assert_eq!(claim_cnft(&mut pool, redeemer, &mut held).err(), Some(ErrorCode::CouponNotFound));
    assert_eq!(pool.items, vec![1]);
}

#[test]
fn claim_by_someone_else_fails() {
    let mut pool = pool_with(vec![], 1000);
    let a = deposit_args(record("a", None), 3, 0);
    deposit_cnft(&mut pool, &a, addr(8), 1).unwrap();
    let mut held = Some(CnftClaimCoupon { owner: addr(5), bump: 0, coupon: 3 });
    assert_eq!(claim_cnft(&mut pool, addr(6), &mut held).err(), Some(ErrorCode::CouponNotFound));
    assert!(held.is_some());
    assert_eq!(pool.items, vec![3]);
}

#[test]
fn claim_of_slot_not_in_pool_fails() {
    let mut pool = pool_with(vec![], 1000);
    let mut held = Some(CnftClaimCoupon { owner: addr(5), bump: 0, coupon: 3 });
    assert_eq!(claim_cnft(&mut pool, addr(5), &mut held).err(), Some(ErrorCode::SlotNotFound));
    assert!(held.is_some());
}

#[test]
fn claim_removes_by_value_not_by_index() {
    let mut pool = pool_with(vec![], 1000);
    for (i, pos) in [10u8, 20, 30].iter().enumerate() {
        let args = deposit_args(record(&format!("n{}", i), None), *pos, i as u64);
        deposit_cnft(&mut pool, &args, addr(8), 1).unwrap();
    }
    let mut held = Some(CnftClaimCoupon { owner: addr(5), bump: 0, coupon: 20 });
    assert_eq!(claim_cnft(&mut pool, addr(5), &mut held), Ok(20));
    assert_eq!(pool.items, vec![10, 30]);
}

#[test]
fn a_slot_can_be_allocated_to_two_coupons_before_a_claim() {
    let mut pool = pool_with(vec![], 1000);
    let a = deposit_args(record("a", None), 0, 0);
    deposit_cnft(&mut pool, &a, addr(8), 1).unwrap();
    let (first, _) = swap_token_to_cnft(&pool, addr(5), 0, 0, 1).unwrap();
    let (second, _) = swap_token_to_cnft(&pool, addr(6), 0, 0, 1).unwrap();
    assert_eq!(first.coupon, second.coupon);
    let mut h1 = Some(first);
    let mut h2 = Some(second);
    assert_eq!(claim_cnft(&mut pool, addr(5), &mut h1), Ok(0));
    assert_eq!(claim_cnft(&mut pool, addr(6), &mut h2).err(), Some(ErrorCode::SlotNotFound));
}
