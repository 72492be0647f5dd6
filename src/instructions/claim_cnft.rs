use vstd::prelude::*;
use crate::errors::ErrorCode;
use crate::state::{removed_first, Address, CnftClaimCoupon, HybridPoolConfig};

verus! {

/// The proof material for moving a pooled item out to its claimant.
#[derive(Debug, Clone, Copy)]
pub struct ClaimCnftArgs {
    pub root: [u8; 32],
    pub data_hash: [u8; 32],
    pub creator_hash: [u8; 32],
    pub nonce: u64,
    pub index: u32,
}

/// Redeems the coupon that `owner` holds in `coupon`: the coupon's slot
/// leaves the pool and the coupon is used up. Returns the slot, whose item
/// goes to `owner`. Fails with `CouponNotFound` when `owner` holds no
/// coupon, else with `SlotNotFound` when its slot is no longer in the pool;
/// nothing changes then.
pub fn handler(pool: &mut HybridPoolConfig, owner: Address, coupon: &mut Option<CnftClaimCoupon>) -> (r: Result<u8, ErrorCode>)
    ensures
        !(*old(coupon) matches Some(c) && c.owner@ == owner@) ==> (r matches Err(e) && e
            == ErrorCode::CouponNotFound),
        *old(coupon) matches Some(c) && c.owner@ == owner@ && !old(pool).items@.contains(c.coupon)
            ==> (r matches Err(e) && e == ErrorCode::SlotNotFound),
        r is Ok <==> (*old(coupon) matches Some(c) && c.owner@ == owner@ && old(pool).items@.contains(
            c.coupon,
        )),
        r matches Ok(slot) ==> {
            &&& *old(coupon) matches Some(c) && c.coupon == slot
            &&& removed_first(old(pool).items@, slot, final(pool).items@)
            &&& *final(coupon) is None
        },
        r matches Ok(slot) ==> (old(pool).wf() ==> final(pool).items@.to_set() == old(
            pool,
        ).items@.to_set().remove(slot)),
        r is Err ==> *final(pool) == *old(pool) && *final(coupon) == *old(coupon),
        final(pool).same_config(old(pool)),
        final(pool).initiated == old(pool).initiated,
        old(pool).wf() ==> final(pool).wf(),
{
    let c = match *coupon {
        Some(c) => c,
        None => {
            return Err(ErrorCode::CouponNotFound);
        },
    };
    if !(c.owner == owner) {
        return Err(ErrorCode::CouponNotFound);
    }
    pool.record_removal(c.coupon)?;
    *coupon = None;
    Ok(c.coupon)
}

} // verus!
