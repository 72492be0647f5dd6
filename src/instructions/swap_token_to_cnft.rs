use vstd::prelude::*;
use crate::allocation::{allocate, allocation};
use crate::errors::ErrorCode;
use crate::state::{payment, payment_amount, Address, CnftClaimCoupon, HybridPoolConfig};

verus! {

/// Trades tokens for an item: `owner` pays the price of one item in base
/// units of a token with `decimals` decimal places, and receives a coupon for
/// the slot that `entropy` allocates. The slot stays in the pool until the
/// coupon is claimed. Returns the coupon and the amount to pay into the
/// pool. Fails with `AmountOverflow` when the amount does not fit in 64
/// bits, else with `EmptyPool` when the pool holds no items.
pub fn handler(
    pool: &HybridPoolConfig,
    owner: Address,
    coupon_bump: u8,
    decimals: u8,
    entropy: u64,
) -> (r: Result<(CnftClaimCoupon, u64), ErrorCode>)
    ensures
        payment(pool.price, 1, decimals) > u64::MAX ==> (r matches Err(e) && e
            == ErrorCode::AmountOverflow),
        payment(pool.price, 1, decimals) <= u64::MAX && pool.items@.len() == 0 ==> (r matches Err(
            e,
        ) && e == ErrorCode::EmptyPool),
        r is Ok <==> payment(pool.price, 1, decimals) <= u64::MAX && pool.items@.len() > 0,
        r matches Ok((coupon, amount)) ==> {
            &&& allocation(pool.items@, entropy) == Ok::<u8, ErrorCode>(coupon.coupon)
            &&& coupon.owner == owner
            &&& coupon.bump == coupon_bump
            &&& amount == payment(pool.price, 1, decimals)
        },
{
    let amount = match payment_amount(pool.price, 1, decimals) {
        Some(a) => a,
        None => {
            return Err(ErrorCode::AmountOverflow);
        },
    };
    let slot = allocate(&pool.items, entropy)?;
    Ok((CnftClaimCoupon { owner, bump: coupon_bump, coupon: slot }, amount))
}

} // verus!
