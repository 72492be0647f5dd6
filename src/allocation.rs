//! How a pooled item is chosen for a redemption, and where the entropy for
//! that choice comes from.
use vstd::prelude::*;
use crate::errors::ErrorCode;

verus! {

/// The byte the allocation aims at: `(entropy mod 255) + 1`, in `1..=255`.
pub open spec fn target_of(entropy: u64) -> u8 {
    ((entropy % 255) + 1) as u8
}

/// How far slot `pos` lies from `target`: the 8-bit wrapping difference
/// `pos - target`. It is not symmetric: a slot just below the target is
/// as far as it can be.
pub open spec fn distance(pos: u8, target: u8) -> u8 {
    ((pos as int - target as int) % 256) as u8
}

/// The earliest slot of `items` whose distance to `target` is smallest.
pub open spec fn nearest(items: Seq<u8>, target: u8) -> u8
    recommends
        items.len() > 0,
    decreases items.len(),
{
    if items.len() <= 1 {
        items[0]
    } else {
        let best = nearest(items.drop_last(), target);
        if distance(items.last(), target) < distance(best, target) {
            items.last()
        } else {
            best
        }
    }
}

/// What allocating from `items` with `entropy` gives.
pub open spec fn allocation(items: Seq<u8>, entropy: u64) -> Result<u8, ErrorCode> {
    if items.len() == 0 {
        Err(ErrorCode::EmptyPool)
    } else {
        Ok(nearest(items, target_of(entropy)))
    }
}

/// The unsigned integer whose little-endian bytes are `b`.
pub open spec fn le_value(b: Seq<u8>) -> nat
    decreases b.len(),
{
    if b.len() == 0 {
        0
    } else {
        b[0] as nat + 256 * le_value(b.drop_first())
    }
}

/// The offset of the newest slot hash in the slot-hashes record.
pub const NEWEST_HASH_OFFSET: usize = 12;

/// The entropy drawn from the slot-hashes record `data` at time `now`:
/// the eight bytes at offset 12, read little-endian, minus `now` taken as
/// an unsigned number, saturating at zero.
pub open spec fn entropy_of(data: Seq<u8>, now: i64) -> Option<u64> {
    if data.len() < 20 {
        None
    } else {
        let v = le_value(data.subrange(12, 20));
        let t = now as u64;
        Some(if v >= t { (v - t) as u64 } else { 0 })
    }
}

proof fn lemma_le_value_bound(b: Seq<u8>)
    ensures
        le_value(b) < pow256(b.len()),
    decreases b.len(),
{
    if b.len() > 0 {
        lemma_le_value_bound(b.drop_first());
        assert(le_value(b) <= 255 + 256 * (pow256((b.len() - 1) as nat) - 1)) by (nonlinear_arith)
            requires
                le_value(b) == b[0] as nat + 256 * le_value(b.drop_first()),
                b[0] <= 255,
                le_value(b.drop_first()) < pow256((b.len() - 1) as nat),
        ;
    }
}

pub open spec fn pow256(n: nat) -> nat
    decreases n,
{
    if n == 0 {
        1
    } else {
        256 * pow256((n - 1) as nat)
    }
}

/// Reads the eight bytes of `data` from `start` as a little-endian integer.
fn read_u64_le(data: &Vec<u8>, start: usize) -> (r: u64)
    requires
        start + 8 <= data@.len(),
    ensures
        r as nat == le_value(data@.subrange(start as int, start + 8)),
{
    let n: usize = data.len();
    let mut acc: u64 = 0;
    let mut k: usize = 8;
    proof {
        assert(data@.subrange(start + 8, start + 8) =~= Seq::<u8>::empty());
    }
    while k > 0
        invariant
            k <= 8,
            n == data@.len(),
            start + 8 <= data@.len(),
            acc as nat == le_value(data@.subrange(start + k, start + 8)),
        decreases k,
    {
        let ghost rest = data@.subrange(start + k, start + 8);
        k = k - 1;
        let ghost s = data@.subrange(start + k, start + 8);
        proof {
            assert(s.drop_first() =~= rest);
            assert(s[0] == data@[start + k]);
            lemma_le_value_bound(s);
            assert(pow256(s.len()) <= pow256(8)) by {
                lemma_pow256_mono(s.len(), 8);
            }
            reveal_with_fuel(pow256, 9);
            assert(pow256(8) == 18446744073709551616);
        }
        acc = data[start + k] as u64 + 256 * acc;
    }
    acc
}

proof fn lemma_pow256_mono(a: nat, b: nat)
    requires
        a <= b,
    ensures
        pow256(a) <= pow256(b),
    decreases b - a,
{
    if a < b {
        lemma_pow256_mono(a, (b - 1) as nat);
    }
}

/// `s` is a slot of `items` no farther from `target` than any other, and
/// no slot before its first occurrence is as near.
pub open spec fn first_nearest(items: Seq<u8>, target: u8, s: u8) -> bool {
    &&& forall|j: int| 0 <= j < items.len() ==> distance(items[j], target) >= distance(s, target)
    &&& exists|i: int|
        0 <= i < items.len() && items[i] == s && (forall|j: int|
            0 <= j < i ==> distance(items[j], target) > distance(s, target))
}

proof fn lemma_nearest_is_first_minimal(items: Seq<u8>, target: u8)
    requires
        items.len() > 0,
    ensures
        items.contains(nearest(items, target)),
        first_nearest(items, target, nearest(items, target)),
    decreases items.len(),
{
    let s = nearest(items, target);
    if items.len() == 1 {
        assert(items[0] == s);
        assert(0 <= 0 < items.len() && items[0] == s && (forall|j: int|
            0 <= j < 0 ==> distance(items[j], target) > distance(s, target)));
    } else {
        let front = items.drop_last();
        let k = items.len() - 1;
        lemma_nearest_is_first_minimal(front, target);
        let b = nearest(front, target);
        let i0 = choose|i: int|
            0 <= i < front.len() && front[i] == b && (forall|j: int|
                0 <= j < i ==> distance(front[j], target) > distance(b, target));
        assert forall|j: int| 0 <= j < k implies items[j] == front[j] by {}
        if distance(items.last(), target) < distance(b, target) {
            assert(s == items[k]);
            assert forall|j: int| 0 <= j < k implies distance(items[j], target) > distance(
                s,
                target,
            ) by {
                assert(items[j] == front[j]);
            }
            assert(0 <= k < items.len() && items[k] == s && (forall|j: int|
                0 <= j < k ==> distance(items[j], target) > distance(s, target)));
        } else {
            assert(s == b);
            assert(items[i0] == front[i0]);
            assert forall|j: int| 0 <= j < i0 implies distance(items[j], target) > distance(
                s,
                target,
            ) by {
                assert(items[j] == front[j]);
            }
            assert(0 <= i0 < items.len() && items[i0] == s && (forall|j: int|
                0 <= j < i0 ==> distance(items[j], target) > distance(s, target)));
        }
        assert forall|j: int| 0 <= j < items.len() implies distance(items[j], target) >= distance(
            s,
            target,
        ) by {
            if j < k {
                assert(items[j] == front[j]);
            }
        }
    }
}

/// Allocation depends on nothing but the pooled slots and the entropy: two
/// allocations over the same slots with the same entropy pick the same slot.
pub proof fn lemma_allocation_deterministic(items1: Seq<u8>, entropy1: u64, items2: Seq<u8>, entropy2: u64)
    requires
        items1 == items2,
        entropy1 == entropy2,
    ensures
        allocation(items1, entropy1) == allocation(items2, entropy2),
{
}

/// Allocation is total: on an empty pool it fails with `EmptyPool`; on any
/// other it picks a slot of the pool, one no farther from the target than
/// any other slot, and the earliest such.
pub proof fn lemma_allocation_total(items: Seq<u8>, entropy: u64)
    ensures
        items.len() == 0 ==> allocation(items, entropy) == Err::<u8, ErrorCode>(
            ErrorCode::EmptyPool,
        ),
        items.len() > 0 ==> (allocation(items, entropy) matches Ok(s) && items.contains(s)
            && first_nearest(items, target_of(entropy), s)),
{
    if items.len() > 0 {
        lemma_nearest_is_first_minimal(items, target_of(entropy));
    }
}

/// Draws the entropy for an allocation from the slot-hashes record `data`
/// and the clock reading `now` (seconds). `None` when the record is too
/// short to hold a slot hash.
pub fn entropy_from_slot_hashes(data: &Vec<u8>, now: i64) -> (r: Option<u64>)
    ensures
        r == entropy_of(data@, now),
{
    if data.len() < 20 {
        return None;
    }
    let v = read_u64_le(data, NEWEST_HASH_OFFSET);
    Some(v.saturating_sub(now as u64))
}

/// Picks the slot that a redemption receives: among `items`, the first whose
/// wrapping distance to the target derived from `entropy` is smallest.
/// `items` is left unchanged.
pub fn allocate(items: &Vec<u8>, entropy: u64) -> (r: Result<u8, ErrorCode>)
    ensures
        r == allocation(items@, entropy),
{
    if items.len() == 0 {
        return Err(ErrorCode::EmptyPool);
    }
    let target: u8 = ((entropy % 255) + 1) as u8;
    let mut best: u8 = items[0];
    let mut i: usize = 1;
    proof {
        assert(items@.subrange(0, 1).len() == 1);
    }
    while i < items.len()
        invariant
            1 <= i <= items@.len(),
            target == target_of(entropy),
            best == nearest(items@.subrange(0, i as int), target),
        decreases items@.len() - i,
    {
        let d = items[i].wrapping_sub(target);
        proof {
            let s = items@.subrange(0, i + 1);
            assert(s.drop_last() =~= items@.subrange(0, i as int));
            assert(d == distance(items@[i as int], target));
        }
        if d < best.wrapping_sub(target) {
            best = items[i];
        }
        i = i + 1;
    }
    proof {
        assert(items@.subrange(0, items@.len() as int) =~= items@);
    }
    Ok(best)
}

} // verus!
