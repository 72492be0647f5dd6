use vstd::prelude::*;
use crate::bubblegum::{asset_id_of, encodable, get_asset_id, metadata_hash_of};
use crate::errors::ErrorCode;
use crate::metadata::{collection_allowed, verify_metadata, AnchorMetadataArgs};
use crate::state::{contains_slot, Address, HybridPoolConfig, NftStore};

verus! {

/// What the depositor presents: the leaf's proof material, the slot it
/// chooses, and the item's metadata record.
#[derive(Debug, Clone)]
pub struct DepositCnftArgs {
    pub root: [u8; 32],
    pub data_hash: [u8; 32],
    pub creator_hash: [u8; 32],
    pub nonce: u64,
    pub index: u32,
    pub pos: u8,
    pub metadata: AnchorMetadataArgs,
}

/// Why an item may not enter `pool` at `pos`, checked in this order: its
/// metadata does not hash to `data_hash`, it belongs to a collection the
/// pool does not accept, or the slot is taken. `None` when it may.
pub open spec fn deposit_refusal(
    pool: HybridPoolConfig,
    metadata: AnchorMetadataArgs,
    data_hash: Seq<u8>,
    pos: u8,
) -> Option<ErrorCode> {
    if metadata_hash_of(metadata) != data_hash {
        Some(ErrorCode::InvalidDataHash)
    } else if !collection_allowed(pool.collections@, metadata.collection) {
        Some(ErrorCode::InvalidCollection)
    } else if pool.items@.contains(pos) {
        Some(ErrorCode::SlotOccupied)
    } else {
        None
    }
}

/// Checks, without changing the pool, that an item may enter it at `pos`.
/// A record too long to encode is refused with `InvalidDataHash`.
pub fn check_deposit(
    pool: &HybridPoolConfig,
    metadata: &AnchorMetadataArgs,
    data_hash: &[u8; 32],
    pos: u8,
) -> (r: Result<(), ErrorCode>)
    ensures
        r is Ok ==> deposit_refusal(*pool, *metadata, data_hash@, pos) is None,
        match deposit_refusal(*pool, *metadata, data_hash@, pos) {
            Some(e) => encodable(*metadata) || e == ErrorCode::InvalidDataHash ==> r == Err::<
                (),
                ErrorCode,
            >(e),
            None => encodable(*metadata) ==> r is Ok,
        },
        r matches Err(e) ==> e == ErrorCode::InvalidDataHash || deposit_refusal(
            *pool,
            *metadata,
            data_hash@,
            pos,
        ) == Some(e),
{
    verify_metadata(metadata, data_hash)?;
    crate::metadata::check_collection(&pool.collections, &metadata.collection)?;
    if contains_slot(&pool.items, pos) {
        return Err(ErrorCode::SlotOccupied);
    }
    Ok(())
}

/// Takes an item into the pool's custody at slot `args.pos`: its metadata
/// must hash to `args.data_hash` and its collection, if any, must be one the
/// pool accepts; the slot must be free. Returns the custody record, which
/// holds the asset's identity in `merkle_tree`. On any failure nothing
/// changes.
pub fn handler(pool: &mut HybridPoolConfig, args: &DepositCnftArgs, merkle_tree: Address, store_bump: u8) -> (r: Result<NftStore, ErrorCode>)
    ensures
        match deposit_refusal(*old(pool), args.metadata, args.data_hash@, args.pos) {
            Some(e) => encodable(args.metadata) || e == ErrorCode::InvalidDataHash ==> (r matches Err(
                e2,
            ) && e2 == e),
            None => encodable(args.metadata) ==> r is Ok,
        },
        r matches Err(e) ==> e == ErrorCode::InvalidDataHash || deposit_refusal(
            *old(pool),
            args.metadata,
            args.data_hash@,
            args.pos,
        ) == Some(e),
        r is Err ==> *final(pool) == *old(pool),
        r matches Ok(store) ==> {
            &&& deposit_refusal(*old(pool), args.metadata, args.data_hash@, args.pos) is None
            &&& final(pool).items@ == old(pool).items@.push(args.pos)
            &&& store.asset_id@ == asset_id_of(merkle_tree@, args.nonce)
            &&& store.bump == store_bump
        },
        final(pool).same_config(old(pool)),
        final(pool).initiated == old(pool).initiated,
        old(pool).wf() ==> final(pool).wf(),
{
    check_deposit(pool, &args.metadata, &args.data_hash, args.pos)?;
    let recorded = pool.record_deposit(args.pos, &args.metadata.collection);
    assert(recorded is Ok);
    let asset_id = get_asset_id(merkle_tree.bytes, args.nonce);
    Ok(NftStore { asset_id: Address { bytes: asset_id }, bump: store_bump })
}

} // verus!
