use vstd::prelude::*;
use crate::errors::ErrorCode;
use crate::state::{payment, payment_amount, HybridPoolConfig};

verus! {

/// Funds the pool: the authority pays the price of every pooled item, in
/// base units of a token with `decimals` decimal places, and the pool is
/// marked as initiated. Returns the amount to move into the pool's token
/// account. Fails with `EmptyPool` when the pool holds no items, else with
/// `AmountOverflow` when the amount does not fit in 64 bits; nothing changes
/// then.
pub fn handler(pool: &mut HybridPoolConfig, decimals: u8) -> (r: Result<u64, ErrorCode>)
    ensures
        old(pool).items@.len() == 0 ==> (r matches Err(e) && e == ErrorCode::EmptyPool),
        old(pool).items@.len() > 0 && payment(old(pool).price, old(pool).items@.len(), decimals)
            > u64::MAX ==> (r matches Err(e) && e == ErrorCode::AmountOverflow),
        r is Ok <==> old(pool).items@.len() > 0 && payment(
            old(pool).price,
            old(pool).items@.len(),
            decimals,
        ) <= u64::MAX,
        r matches Ok(a) ==> a == payment(old(pool).price, old(pool).items@.len(), decimals)
            && final(pool).initiated,
        r is Err ==> *final(pool) == *old(pool),
        final(pool).same_config(old(pool)),
        final(pool).items@ == old(pool).items@,
        old(pool).wf() ==> final(pool).wf(),
{
    if pool.items.len() == 0 {
        return Err(ErrorCode::EmptyPool);
    }
    let count = pool.items.len() as u64;
    match payment_amount(pool.price, count, decimals) {
        Some(total) => {
            pool.initiated = true;
            Ok(total)
        },
        None => Err(ErrorCode::AmountOverflow),
    }
}

} // verus!
