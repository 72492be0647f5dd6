//! The outside items of the compressed-asset program's client crate that the
//! library relies on, with what each is trusted to do.
use vstd::prelude::*;
use anchor_lang::solana_program::pubkey::Pubkey;
use mpl_bubblegum::types::Collection as BubblegumCollection;
use mpl_bubblegum::types::Creator as BubblegumCreator;
use mpl_bubblegum::types::MetadataArgs;
use mpl_bubblegum::types::TokenProgramVersion as BubblegumTokenProgramVersion;
use mpl_bubblegum::types::TokenStandard as BubblegumTokenStandard;
use mpl_bubblegum::types::UseMethod as BubblegumUseMethod;
use mpl_bubblegum::types::Uses as BubblegumUses;
use crate::metadata::AnchorMetadataArgs;

verus! {

#[verifier::external_type_specification]
#[verifier::external_body]
pub struct ExPubkey(Pubkey);

#[verifier::external_type_specification]
pub struct ExMetadataArgs(MetadataArgs);

#[verifier::external_type_specification]
pub struct ExBubblegumCollection(BubblegumCollection);

#[verifier::external_type_specification]
pub struct ExBubblegumCreator(BubblegumCreator);

#[verifier::external_type_specification]
pub struct ExBubblegumUses(BubblegumUses);

#[verifier::external_type_specification]
pub struct ExBubblegumUseMethod(BubblegumUseMethod);

#[verifier::external_type_specification]
pub struct ExBubblegumTokenStandard(BubblegumTokenStandard);

#[verifier::external_type_specification]
pub struct ExBubblegumTokenProgramVersion(BubblegumTokenProgramVersion);

/// The public key whose 32 bytes are `b`.
pub uninterp spec fn pubkey_of(b: Seq<u8>) -> Pubkey;

/// Relies on `Pubkey::new_from_array`: the key is built from the bytes alone.
pub assume_specification[ Pubkey::new_from_array ](pubkey_array: [u8; 32]) -> (r: Pubkey)
    ensures
        r == pubkey_of(pubkey_array@),
;

/// The data hash that the asset registry computes for a metadata record.
pub uninterp spec fn metadata_hash_of(m: AnchorMetadataArgs) -> Seq<u8>;

/// Whether every length that the record's binary encoding writes as a
/// 32-bit number fits: a character takes at most four bytes in UTF-8.
pub open spec fn encodable(m: AnchorMetadataArgs) -> bool {
    &&& 4 * m.name@.len() <= u32::MAX
    &&& 4 * m.symbol@.len() <= u32::MAX
    &&& 4 * m.uri@.len() <= u32::MAX
    &&& m.creators@.len() <= u32::MAX
}

/// Relies on `mpl_bubblegum::hash::hash_metadata`, applied to the record in
/// the registry's own types (`AnchorMetadataArgs::convert`, field for
/// field): the keccak hash of the record's borsh encoding,
/// hashed again with the royalty basis points. It depends on the record
/// alone, and fails only where borsh cannot write a length in 32 bits.
#[verifier::external_body]
pub(crate) fn hash_metadata(m: &AnchorMetadataArgs) -> (r: Option<[u8; 32]>)
    ensures
        r matches Some(h) ==> h@ == metadata_hash_of(*m),
        encodable(*m) ==> r is Some,
{
    mpl_bubblegum::hash::hash_metadata(&m.convert()).ok()
}

/// The identity of the asset with leaf nonce `nonce` in the tree at `tree`.
pub uninterp spec fn asset_id_of(tree: Seq<u8>, nonce: u64) -> Seq<u8>;

/// Relies on `mpl_bubblegum::utils::get_asset_id`: a program address derived
/// from the tree's key and the nonce alone (`find_program_address` over the
/// seeds `"asset"`, the tree, the nonce's little-endian bytes). That search
/// panics only when no bump seed yields an address, which no known input
/// does.
#[verifier::external_body]
pub(crate) fn get_asset_id(tree: [u8; 32], nonce: u64) -> (r: [u8; 32])
    ensures
        r@ == asset_id_of(tree@, nonce),
{
    mpl_bubblegum::utils::get_asset_id(&Pubkey::new_from_array(tree), nonce).to_bytes()
}

} // verus!
