//! The reasons an operation on a pool fails.
use vstd::prelude::*;

verus! {

/// Every way in which an operation on a pool can be refused.
#[derive(Debug, Clone, Copy, PartialEq, Eq, Structural)]
pub enum ErrorCode {
    /// Reserved for a time-gated variant of the pool; no operation returns it.
    RaffleNotEnded,
    /// The unit price is below the minimum of 1000 base units.
    PriceTooLow,
    /// The metadata record does not hash to the claimed data hash.
    InvalidDataHash,
    /// The item belongs to a collection the pool does not accept.
    InvalidCollection,
    /// More than three collections were given at pool creation.
    TooManyCollections,
    /// The pool holds no items.
    EmptyPool,
    /// The slot position is not occupied in the pool.
    SlotNotFound,
    /// The slot position is already occupied in the pool.
    SlotOccupied,
    /// The caller holds no claim coupon.
    CouponNotFound,
    /// A payment in base units does not fit in 64 bits.
    AmountOverflow,
}

} // verus!
