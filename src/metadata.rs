//! The metadata record of a compressed item, its conversion into the asset
//! registry's own types, and the checks made on it before custody moves.
use vstd::prelude::*;
use anchor_lang::solana_program::pubkey::Pubkey;
use mpl_bubblegum::types::Collection as BubblegumCollection;
use mpl_bubblegum::types::Creator as BubblegumCreator;
use mpl_bubblegum::types::MetadataArgs;
use mpl_bubblegum::types::TokenProgramVersion as BubblegumTokenProgramVersion;
use mpl_bubblegum::types::TokenStandard as BubblegumTokenStandard;
use mpl_bubblegum::types::UseMethod as BubblegumUseMethod;
use mpl_bubblegum::types::Uses as BubblegumUses;
use crate::bubblegum::{hash_metadata, metadata_hash_of, encodable, pubkey_of};
use crate::errors::ErrorCode;
use crate::state::Address;

verus! {

#[derive(Debug, Clone, Copy, PartialEq, Eq, Structural)]
pub enum TokenStandard {
    NonFungible,
    FungibleAsset,
    Fungible,
    NonFungibleEdition,
}

impl TokenStandard {
    pub open spec fn spec_convert(self) -> BubblegumTokenStandard {
        match self {
            TokenStandard::NonFungible => BubblegumTokenStandard::NonFungible,
            TokenStandard::FungibleAsset => BubblegumTokenStandard::FungibleAsset,
            TokenStandard::Fungible => BubblegumTokenStandard::Fungible,
            TokenStandard::NonFungibleEdition => BubblegumTokenStandard::NonFungibleEdition,
        }
    }

    /// The same token standard in the registry's types.
    pub fn convert(&self) -> (r: BubblegumTokenStandard)
        ensures
            r == self.spec_convert(),
    {
        match self {
            TokenStandard::NonFungible => BubblegumTokenStandard::NonFungible,
            TokenStandard::FungibleAsset => BubblegumTokenStandard::FungibleAsset,
            TokenStandard::Fungible => BubblegumTokenStandard::Fungible,
            TokenStandard::NonFungibleEdition => BubblegumTokenStandard::NonFungibleEdition,
        }
    }
}

/// The collection an item declares membership of.
#[derive(Debug, Clone, Copy)]
pub struct Collection {
    pub verified: bool,
    pub key: Address,
}

impl Collection {
    pub open spec fn spec_convert(self) -> BubblegumCollection {
        BubblegumCollection { verified: self.verified, key: pubkey_of(self.key@) }
    }

    /// The same collection in the registry's types.
    pub fn convert(&self) -> (r: BubblegumCollection)
        ensures
            r == self.spec_convert(),
    {
        BubblegumCollection { verified: self.verified, key: Pubkey::new_from_array(self.key.bytes) }
    }
}

#[derive(Debug, Clone, Copy)]
pub struct Creator {
    pub address: Address,
    pub verified: bool,
    /// The creator's share, in percent (not basis points).
    pub share: u8,
}

impl Creator {
    pub open spec fn spec_convert(self) -> BubblegumCreator {
        BubblegumCreator {
            address: pubkey_of(self.address@),
            verified: self.verified,
            share: self.share,
        }
    }

    /// The same creator in the registry's types.
    pub fn convert(&self) -> (r: BubblegumCreator)
        ensures
            r == self.spec_convert(),
    {
        BubblegumCreator {
            address: Pubkey::new_from_array(self.address.bytes),
            verified: self.verified,
            share: self.share,
        }
    }
}

#[derive(Debug, Clone, Copy)]
pub struct Uses {
    pub use_method: UseMethod,
    pub remaining: u64,
    pub total: u64,
}

impl Uses {
    pub open spec fn spec_convert(self) -> BubblegumUses {
        BubblegumUses {
            use_method: self.use_method.spec_convert(),
            remaining: self.remaining,
            total: self.total,
        }
    }

    /// The same usage terms in the registry's types.
    pub fn convert(&self) -> (r: BubblegumUses)
        ensures
            r == self.spec_convert(),
    {
        BubblegumUses {
            use_method: self.use_method.convert(),
            remaining: self.remaining,
            total: self.total,
        }
    }
}

#[derive(Debug, Clone, Copy, PartialEq, Eq, Structural)]
pub enum UseMethod {
    Burn,
    Multiple,
    Single,
}

impl UseMethod {
    pub open spec fn spec_convert(self) -> BubblegumUseMethod {
        match self {
            UseMethod::Burn => BubblegumUseMethod::Burn,
            UseMethod::Multiple => BubblegumUseMethod::Multiple,
            UseMethod::Single => BubblegumUseMethod::Single,
        }
    }

    /// The same use method in the registry's types.
    pub fn convert(&self) -> (r: BubblegumUseMethod)
        ensures
            r == self.spec_convert(),
    {
        match self {
            UseMethod::Burn => BubblegumUseMethod::Burn,
            UseMethod::Multiple => BubblegumUseMethod::Multiple,
            UseMethod::Single => BubblegumUseMethod::Single,
        }
    }
}

#[derive(Debug, Clone, Copy, PartialEq, Eq, Structural)]
pub enum TokenProgramVersion {
    Original,
    Token2022,
}

impl TokenProgramVersion {
    pub open spec fn spec_convert(self) -> BubblegumTokenProgramVersion {
        match self {
            TokenProgramVersion::Original => BubblegumTokenProgramVersion::Original,
            TokenProgramVersion::Token2022 => BubblegumTokenProgramVersion::Token2022,
        }
    }

    /// The same token program version in the registry's types.
    pub fn convert(&self) -> (r: BubblegumTokenProgramVersion)
        ensures
            r == self.spec_convert(),
    {
        match self {
            TokenProgramVersion::Original => BubblegumTokenProgramVersion::Original,
            TokenProgramVersion::Token2022 => BubblegumTokenProgramVersion::Token2022,
        }
    }
}

/// The canonical description of a compressed item: only ever hashed and
/// compared, never stored.
#[derive(Debug, Clone)]
pub struct AnchorMetadataArgs {
    /// The name of the asset.
    pub name: String,
    /// The symbol of the asset.
    pub symbol: String,
    /// URI of the JSON document that describes the asset.
    pub uri: String,
    /// Royalty basis points paid to creators on secondary sales (0-10000).
    pub seller_fee_basis_points: u16,
    pub primary_sale_happened: bool,
    pub is_mutable: bool,
    /// Nonce for the calculation of editions, if present.
    pub edition_nonce: Option<u8>,
    pub token_standard: Option<TokenStandard>,
    pub collection: Option<Collection>,
    pub uses: Option<Uses>,
    pub token_program_version: TokenProgramVersion,
    pub creators: Vec<Creator>,
}

pub open spec fn convert_token_standard(t: Option<TokenStandard>) -> Option<BubblegumTokenStandard> {
    match t {
        Some(t) => Some(t.spec_convert()),
        None => None,
    }
}

pub open spec fn convert_collection(c: Option<Collection>) -> Option<BubblegumCollection> {
    match c {
        Some(c) => Some(c.spec_convert()),
        None => None,
    }
}

pub open spec fn convert_uses(u: Option<Uses>) -> Option<BubblegumUses> {
    match u {
        Some(u) => Some(u.spec_convert()),
        None => None,
    }
}

impl AnchorMetadataArgs {
    /// The same record in the registry's types, field for field.
    pub fn convert(&self) -> (r: MetadataArgs)
        ensures
            r.name == self.name,
            r.symbol == self.symbol,
            r.uri == self.uri,
            r.seller_fee_basis_points == self.seller_fee_basis_points,
            r.primary_sale_happened == self.primary_sale_happened,
            r.is_mutable == self.is_mutable,
            r.edition_nonce == self.edition_nonce,
            r.token_standard == convert_token_standard(self.token_standard),
            r.collection == convert_collection(self.collection),
            r.uses == convert_uses(self.uses),
            r.token_program_version == self.token_program_version.spec_convert(),
            r.creators@ == self.creators@.map_values(|c: Creator| c.spec_convert()),
    {
        let mut creators: Vec<BubblegumCreator> = Vec::new();
        let mut i: usize = 0;
        while i < self.creators.len()
            invariant
                i <= self.creators@.len(),
                creators@ == self.creators@.subrange(0, i as int).map_values(
                    |c: Creator| c.spec_convert(),
                ),
            decreases self.creators@.len() - i,
        {
            creators.push(self.creators[i].convert());
            i = i + 1;
            assert(creators@ =~= self.creators@.subrange(0, i as int).map_values(
                |c: Creator| c.spec_convert(),
            ));
        }
        assert(self.creators@.subrange(0, i as int) =~= self.creators@);
        let token_standard = match &self.token_standard {
            Some(t) => Some(t.convert()),
            None => None,
        };
        let collection = match &self.collection {
            Some(c) => Some(c.convert()),
            None => None,
        };
        let uses = match &self.uses {
            Some(u) => Some(u.convert()),
            None => None,
        };
        MetadataArgs {
            name: self.name.clone(),
            symbol: self.symbol.clone(),
            uri: self.uri.clone(),
            seller_fee_basis_points: self.seller_fee_basis_points,
            primary_sale_happened: self.primary_sale_happened,
            is_mutable: self.is_mutable,
            edition_nonce: self.edition_nonce,
            token_standard,
            collection,
            uses,
            token_program_version: self.token_program_version.convert(),
            creators,
        }
    }
}

/// Whether two 32-byte hashes are equal, byte for byte.
pub fn same_hash(a: &[u8; 32], b: &[u8; 32]) -> (r: bool)
    ensures
        r == (a@ == b@),
{
    let mut i: usize = 0;
    while i < 32
        invariant
            0 <= i <= 32,
            a@.len() == 32,
            b@.len() == 32,
            forall|j: int| 0 <= j < i ==> a@[j] == b@[j],
        decreases 32 - i,
    {
        if a[i] != b[i] {
            return false;
        }
        i = i + 1;
    }
    assert(a@ =~= b@);
    true
}

/// Compares the hash computed from a metadata record with the hash the
/// caller claims for it: fails with `InvalidDataHash` unless they are equal.
pub fn check_data_hash(computed: &[u8; 32], claimed: &[u8; 32]) -> (r: Result<(), ErrorCode>)
    ensures
        r is Ok <==> computed@ == claimed@,
        r is Err ==> r == Err::<(), ErrorCode>(ErrorCode::InvalidDataHash),
{
    if same_hash(computed, claimed) {
        Ok(())
    } else {
        Err(ErrorCode::InvalidDataHash)
    }
}

/// Recomputes the data hash of `metadata` as the asset registry does and
/// fails with `InvalidDataHash` unless it equals `claimed`.
pub fn verify_metadata(metadata: &AnchorMetadataArgs, claimed: &[u8; 32]) -> (r: Result<(), ErrorCode>)
    ensures
        r is Ok ==> metadata_hash_of(*metadata) == claimed@,
        metadata_hash_of(*metadata) != claimed@ ==> r == Err::<(), ErrorCode>(ErrorCode::InvalidDataHash),
        encodable(*metadata) && metadata_hash_of(*metadata) == claimed@ ==> r is Ok,
        r is Err ==> r == Err::<(), ErrorCode>(ErrorCode::InvalidDataHash),
{
    match hash_metadata(metadata) {
        Some(h) => check_data_hash(&h, claimed),
        None => Err(ErrorCode::InvalidDataHash),
    }
}

/// Whether `keys` holds an address equal to `key`.
pub open spec fn holds_key(keys: Seq<Address>, key: Address) -> bool {
    exists|i: int| 0 <= i < keys.len() && keys[i]@ == key@
}

/// Whether an item declaring `collection` may enter a pool that accepts
/// `allowed`: an item of no collection always may.
pub open spec fn collection_allowed(allowed: Seq<Address>, collection: Option<Collection>) -> bool {
    match collection {
        Some(c) => holds_key(allowed, c.key),
        None => true,
    }
}

/// Fails with `InvalidCollection` when the item declares a collection that
/// `allowed` does not hold.
pub fn check_collection(allowed: &Vec<Address>, collection: &Option<Collection>) -> (r: Result<(), ErrorCode>)
    ensures
        r is Ok <==> collection_allowed(allowed@, *collection),
        r is Err ==> r == Err::<(), ErrorCode>(ErrorCode::InvalidCollection),
{
    match *collection {
        None => Ok(()),
        Some(c) => {
            let mut i: usize = 0;
            while i < allowed.len()
                invariant
                    i <= allowed@.len(),
                    *collection == Some(c),
                    forall|j: int| 0 <= j < i ==> allowed@[j]@ != c.key@,
                decreases allowed@.len() - i,
            {
                if allowed[i] == c.key {
                    assert(0 <= i < allowed@.len() && allowed@[i as int]@ == c.key@);
                    return Ok(());
                }
                i = i + 1;
            }
            Err(ErrorCode::InvalidCollection)
        },
    }
}

} // verus!
