use vstd::prelude::*;
use crate::bubblegum::{asset_id_of, encodable, get_asset_id};
use crate::errors::ErrorCode;
use crate::instructions::deposit_cnft::{check_deposit, deposit_refusal};
use crate::metadata::AnchorMetadataArgs;
use crate::state::{payment, payment_amount, Address, HybridPoolConfig, NftStore};

verus! {

/// What a redeemer presents when trading an item for tokens: the leaf's
/// proof material, the slot the item goes to, and its metadata record.
#[derive(Debug, Clone)]
pub struct SwapCnftArgs {
    pub root: [u8; 32],
    pub data_hash: [u8; 32],
    pub creator_hash: [u8; 32],
    pub nonce: u64,
    pub index: u32,
    pub pos: u8,
    pub metadata: AnchorMetadataArgs,
}

/// Takes an item into the pool's custody at slot `args.pos`, under the same
/// checks as a deposit, and pays the redeemer the price of one item in base
/// units of a token with `decimals` decimal places. Returns the custody
/// record and the amount to pay out of the pool. Fails as a deposit does,
/// else with `AmountOverflow` when the amount does not fit in 64 bits; on
/// any failure nothing changes.
pub fn handler(
    pool: &mut HybridPoolConfig,
    args: &SwapCnftArgs,
    merkle_tree: Address,
    store_bump: u8,
    decimals: u8,
) -> (r: Result<(NftStore, u64), ErrorCode>)
    ensures
        match deposit_refusal(*old(pool), args.metadata, args.data_hash@, args.pos) {
            Some(e) => encodable(args.metadata) || e == ErrorCode::InvalidDataHash ==> (r matches Err(
                e2,
            ) && e2 == e),
            None => encodable(args.metadata) ==> (r is Ok <==> payment(old(pool).price, 1, decimals)
                <= u64::MAX),
        },
        r matches Err(e) ==> e == ErrorCode::InvalidDataHash || e == ErrorCode::AmountOverflow
            || deposit_refusal(*old(pool), args.metadata, args.data_hash@, args.pos) == Some(e),
        r is Err ==> *final(pool) == *old(pool),
        r matches Ok((store, amount)) ==> {
            &&& deposit_refusal(*old(pool), args.metadata, args.data_hash@, args.pos) is None
            &&& final(pool).items@ == old(pool).items@.push(args.pos)
            &&& store.asset_id@ == asset_id_of(merkle_tree@, args.nonce)
            &&& store.bump == store_bump
            &&& amount == payment(old(pool).price, 1, decimals)
        },
        final(pool).same_config(old(pool)),
        final(pool).initiated == old(pool).initiated,
        old(pool).wf() ==> final(pool).wf(),
{
    check_deposit(pool, &args.metadata, &args.data_hash, args.pos)?;
    let amount = match payment_amount(pool.price, 1, decimals) {
        Some(a) => a,
        None => {
            return Err(ErrorCode::AmountOverflow);
        },
    };
    let recorded = pool.record_deposit(args.pos, &args.metadata.collection);
    assert(recorded is Ok);
    let asset_id = get_asset_id(merkle_tree.bytes, args.nonce);
    Ok((NftStore { asset_id: Address { bytes: asset_id }, bump: store_bump }, amount))
}

} // verus!
