//! The pool's stored records and its inventory ledger.
use vstd::prelude::*;
use vstd::set_lib::{lemma_int_range, lemma_len_subset, set_int_range};
use crate::errors::ErrorCode;
use crate::metadata::{check_collection, collection_allowed, Collection};

verus! {

/// A 32-byte account address (a public key), held as its bytes.
#[derive(Debug, Clone, Copy)]
pub struct Address {
    pub bytes: [u8; 32],
}

impl View for Address {
    type V = Seq<u8>;

    open spec fn view(&self) -> Seq<u8> {
        self.bytes@
    }
}

impl PartialEq for Address {
    fn eq(&self, o: &Address) -> (r: bool) {
        let mut i: usize = 0;
        while i < 32
            invariant
                0 <= i <= 32,
                self.bytes@.len() == 32,
                o.bytes@.len() == 32,
                forall|j: int| 0 <= j < i ==> self.bytes@[j] == o.bytes@[j],
            decreases 32 - i,
        {
            if self.bytes[i] != o.bytes[i] {
                return false;
            }
            i = i + 1;
        }
        assert(self.bytes@ =~= o.bytes@);
        true
    }
}

impl vstd::std_specs::cmp::PartialEqSpecImpl for Address {
    open spec fn obeys_eq_spec() -> bool {
        true
    }

    open spec fn eq_spec(&self, o: &Address) -> bool {
        self@ == o@
    }
}

impl Eq for Address {
}


/// The most collections a pool may accept.
pub const MAX_COLLECTIONS: usize = 3;

/// The most items a pool may hold at once: one per byte value.
pub const MAX_ITEMS_IN_POOL: usize = 256;

/// The lowest unit price a pool may be created with, in base units.
pub const MIN_PRICE: u64 = 1000;

/// The custody record of one pooled item, kept under its slot position.
#[derive(Debug, Clone, Copy)]
pub struct NftStore {
    pub asset_id: Address,
    pub bump: u8,
}

/// A single-use receipt entitling `owner` to the item at slot `coupon`.
#[derive(Debug, Clone, Copy)]
pub struct CnftClaimCoupon {
    pub owner: Address,
    pub bump: u8,
    pub coupon: u8,
}

/// The configuration and inventory of one pool.
#[derive(Debug, Clone)]
pub struct HybridPoolConfig {
    pub authority: Address,
    pub bump: u8,
    /// The mint of the fungible token the pool trades in.
    pub token: Address,
    /// The price of one item, in whole tokens.
    pub price: u64,
    pub collections: Vec<Address>,
    pub initiated: bool,
    /// The occupied slot positions, in the order they were filled.
    pub items: Vec<u8>,
}

/// Ten to the power `n`.
pub open spec fn pow10(n: nat) -> nat
    decreases n,
{
    if n == 0 {
        1
    } else {
        10 * pow10((n - 1) as nat)
    }
}

/// `price` whole tokens for each of `count` items, in base units of a token
/// with `decimals` decimal places.
pub open spec fn payment(price: u64, count: nat, decimals: u8) -> nat {
    (price as nat * count * pow10(decimals as nat)) as nat
}

proof fn lemma_pow10_grows(a: nat, b: nat)
    requires
        a <= b,
    ensures
        1 <= pow10(a) <= pow10(b),
    decreases b,
{
    if b > 0 {
        if a < b {
            lemma_pow10_grows(a, (b - 1) as nat);
        } else {
            lemma_pow10_grows((a - 1) as nat, (b - 1) as nat);
        }
    }
}

/// The payment for `count` items at `price` whole tokens each, in base
/// units of a token with `decimals` decimal places; `None` where it does not
/// fit in 64 bits.
pub fn payment_amount(price: u64, count: u64, decimals: u8) -> (r: Option<u64>)
    ensures
        r == (if payment(price, count as nat, decimals) <= u64::MAX {
            Some(payment(price, count as nat, decimals) as u64)
        } else {
            None::<u64>
        }),
{
    let base: u64 = match price.checked_mul(count) {
        Some(b) => b,
        None => {
            proof {
                lemma_pow10_grows(0, decimals as nat);
                assert(price * count * pow10(decimals as nat) >= price * count * 1) by (nonlinear_arith)
                    requires
                        pow10(decimals as nat) >= 1,
                ;
            }
            return None;
        },
    };
    let mut acc: u64 = base;
    let mut k: u8 = 0;
    while k < decimals
        invariant
            k <= decimals,
            base == price * count,
            acc == base * pow10(k as nat),
        decreases decimals - k,
    {
        match acc.checked_mul(10) {
            Some(next) => {
                proof {
                    assert(next == base * pow10((k + 1) as nat)) by (nonlinear_arith)
                        requires
                            next == acc * 10,
                            acc == base * pow10(k as nat),
                            pow10((k + 1) as nat) == 10 * pow10(k as nat),
                    ;
                }
                acc = next;
                k = k + 1;
            },
            None => {
                proof {
                    lemma_pow10_grows((k + 1) as nat, decimals as nat);
                    assert(base * pow10(decimals as nat) >= base * pow10((k + 1) as nat)) by (nonlinear_arith)
                        requires
                            pow10(decimals as nat) >= pow10((k + 1) as nat),
                    ;
                    assert(base * pow10((k + 1) as nat) == acc * 10) by (nonlinear_arith)
                        requires
                            acc == base * pow10(k as nat),
                            pow10((k + 1) as nat) == 10 * pow10(k as nat),
                    ;
                }
                return None;
            },
        }
    }
    Some(acc)
}

/// Whether `s` holds `v`, checked in place.
pub fn contains_slot(s: &Vec<u8>, v: u8) -> (r: bool)
    ensures
        r == s@.contains(v),
{
    let mut i: usize = 0;
    while i < s.len()
        invariant
            i <= s@.len(),
            forall|j: int| 0 <= j < i ==> s@[j] != v,
        decreases s@.len() - i,
    {
        if s[i] == v {
            assert(s@[i as int] == v);
            return true;
        }
        i = i + 1;
    }
    false
}

/// `after` is `before` with the first occurrence of `v` taken out.
pub open spec fn removed_first(before: Seq<u8>, v: u8, after: Seq<u8>) -> bool {
    exists|i: int|
        0 <= i < before.len() && before[i] == v && (forall|j: int| 0 <= j < i ==> before[j] != v)
            && after == before.remove(i)
}

impl HybridPoolConfig {
    /// What holds of every pool: at most three collections, a price of at
    /// least 1000, and each slot position occupied at most once (so at most
    /// 256 items).
    pub open spec fn wf(&self) -> bool {
        &&& self.collections@.len() <= MAX_COLLECTIONS
        &&& self.price >= MIN_PRICE
        &&& self.items@.no_duplicates()
    }

    /// A well-formed pool holds at most 256 items: its slot positions are
    /// distinct bytes.
    pub proof fn lemma_items_bounded(&self)
        requires
            self.wf(),
        ensures
            self.items@.len() <= MAX_ITEMS_IN_POOL,
    {
        let s = self.items@.map_values(|x: u8| x as int);
        assert forall|a: int, b: int| 0 <= a < s.len() && 0 <= b < s.len() && a != b implies s[a]
            != s[b] by {
            assert(self.items@[a] != self.items@[b]);
        }
        assert(s.no_duplicates());
        s.unique_seq_to_set();
        assert forall|x: int| s.to_set().contains(x) implies set_int_range(0, 256).contains(x) by {
            let i = choose|i: int| 0 <= i < s.len() && s[i] == x;
            assert(0 <= self.items@[i] < 256);
        }
        lemma_int_range(0, 256);
        lemma_len_subset(s.to_set(), set_int_range(0, 256));
    }

    /// `self` and `other` agree on everything but the items and the funding flag.
    pub open spec fn same_config(&self, other: &HybridPoolConfig) -> bool {
        &&& self.authority == other.authority
        &&& self.bump == other.bump
        &&& self.token == other.token
        &&& self.price == other.price
        &&& self.collections@ == other.collections@
    }

    /// Records an item entering custody at slot `pos`. Fails with
    /// `InvalidCollection` when the item declares a collection the pool does
    /// not accept (an item of no collection is accepted), and with
    /// `SlotOccupied` when `pos` is taken; nothing changes then.
    pub fn record_deposit(&mut self, pos: u8, declared: &Option<Collection>) -> (r: Result<(), ErrorCode>)
        ensures
            !collection_allowed(old(self).collections@, *declared) ==> r == Err::<(), ErrorCode>(
                ErrorCode::InvalidCollection,
            ),
            collection_allowed(old(self).collections@, *declared) && old(self).items@.contains(pos)
                ==> r == Err::<(), ErrorCode>(ErrorCode::SlotOccupied),
            r is Ok <==> collection_allowed(old(self).collections@, *declared) && !old(
                self,
            ).items@.contains(pos),
            r is Ok ==> final(self).items@ == old(self).items@.push(pos),
            r is Err ==> *final(self) == *old(self),
            final(self).same_config(old(self)),
            final(self).initiated == old(self).initiated,
            old(self).wf() ==> final(self).wf(),
    {
        check_collection(&self.collections, declared)?;
        if contains_slot(&self.items, pos) {
            return Err(ErrorCode::SlotOccupied);
        }
        self.items.push(pos);
        proof {
            if old(self).wf() {
                let n = old(self).items@.len();
                assert forall|a: int, b: int|
                    0 <= a < self.items@.len() && 0 <= b < self.items@.len() && a != b implies self.items@[a]
                    != self.items@[b] by {
                    if a < n && b < n {
                        assert(old(self).items@[a] == self.items@[a]);
                        assert(old(self).items@[b] == self.items@[b]);
                    } else if a < n {
                        assert(self.items@[b] == pos);
                        assert(old(self).items@[a] == self.items@[a]);
                    } else {
                        assert(self.items@[a] == pos);
                        assert(old(self).items@[b] == self.items@[b]);
                    }
                }
            }
        }
        Ok(())
    }

    /// Records the item at slot `pos` leaving custody. Fails with
    /// `SlotNotFound` when `pos` is not occupied; nothing changes then.
    pub fn record_removal(&mut self, pos: u8) -> (r: Result<(), ErrorCode>)
        ensures
            r is Ok <==> old(self).items@.contains(pos),
            r is Err ==> r == Err::<(), ErrorCode>(ErrorCode::SlotNotFound),
            r is Ok ==> removed_first(old(self).items@, pos, final(self).items@),
            r is Err ==> *final(self) == *old(self),
            old(self).wf() ==> final(self).items@.to_set() == old(self).items@.to_set().remove(pos),
            final(self).same_config(old(self)),
            final(self).initiated == old(self).initiated,
            old(self).wf() ==> final(self).wf(),
    {
        let mut i: usize = 0;
        while i < self.items.len()
            invariant
                i <= self.items@.len(),
                *self == *old(self),
                forall|j: int| 0 <= j < i ==> self.items@[j] != pos,
            decreases self.items@.len() - i,
        {
            if self.items[i] == pos {
                let ghost before = self.items@;
                self.items.remove(i);
                proof {
                    assert(before[i as int] == pos);
                    assert(removed_first(before, pos, self.items@));
                    if old(self).wf() {
                        assert(before.no_duplicates());
                        assert forall|a: int, b: int|
                            0 <= a < self.items@.len() && 0 <= b < self.items@.len() && a != b implies self.items@[a]
                            != self.items@[b] by {
                            let a0 = if a < i { a } else { a + 1 };
                            let b0 = if b < i { b } else { b + 1 };
                            assert(self.items@[a] == before[a0]);
                            assert(self.items@[b] == before[b0]);
                        }
                        assert forall|x: u8| self.items@.contains(x) <==> before.contains(x) && x != pos by {
                            if self.items@.contains(x) {
                                let a = choose|a: int| 0 <= a < self.items@.len() && self.items@[a] == x;
                                let a0 = if a < i { a } else { a + 1 };
                                assert(before[a0] == x);
                                assert(a0 != i);
                            }
                            if before.contains(x) && x != pos {
                                let a0 = choose|a: int| 0 <= a < before.len() && before[a] == x;
                                assert(a0 != i);
                                let a = if a0 < i { a0 } else { a0 - 1 };
                                assert(self.items@[a] == x);
                            }
                        }
                        assert(self.items@.to_set() =~= before.to_set().remove(pos));
                    }
                }
                return Ok(());
            }
            i = i + 1;
        }
        Err(ErrorCode::SlotNotFound)
    }
}

} // verus!
