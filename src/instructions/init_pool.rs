use vstd::prelude::*;
use crate::errors::ErrorCode;
use crate::state::{Address, HybridPoolConfig, MAX_COLLECTIONS, MIN_PRICE};

verus! {

/// Creates a pool owned by `authority` that trades items of `collections`
/// for `price` whole tokens of `mint` each. Fails with `TooManyCollections`
/// for more than three collections, else with `PriceTooLow` for a price
/// under 1000. The new pool holds no items and is not yet funded.
pub fn handler(authority: Address, mint: Address, bump: u8, collections: Vec<Address>, price: u64) -> (r: Result<HybridPoolConfig, ErrorCode>)
    ensures
        collections@.len() > MAX_COLLECTIONS ==> (r matches Err(e) && e == ErrorCode::TooManyCollections),
        collections@.len() <= MAX_COLLECTIONS && price < MIN_PRICE ==> (r matches Err(e) && e
            == ErrorCode::PriceTooLow),
        r is Ok <==> collections@.len() <= MAX_COLLECTIONS && price >= MIN_PRICE,
        r matches Ok(p) ==> {
            &&& p.authority == authority
            &&& p.token == mint
            &&& p.bump == bump
            &&& p.price == price
            &&& p.collections@ == collections@
            &&& !p.initiated
            &&& p.items@.len() == 0
            &&& p.wf()
        },
{
    if collections.len() > MAX_COLLECTIONS {
        return Err(ErrorCode::TooManyCollections);
    }
    if price < MIN_PRICE {
        return Err(ErrorCode::PriceTooLow);
    }
    let pool = HybridPoolConfig {
        authority,
        bump,
        token: mint,
        price,
        collections,
        initiated: false,
        items: Vec::new(),
    };
    proof {
        assert(pool.items@.no_duplicates());
    }
    Ok(pool)
}

} // verus!
