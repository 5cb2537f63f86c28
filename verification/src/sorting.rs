//! Putting signers in the order of their keys.

use vstd::prelude::*;
use crate::keys::{lemma_lt_asymmetric, lemma_lt_total, lemma_lt_transitive, Pubkey};
use crate::permissions::{RestrictedSmartAccountSigner, SmartAccountSigner};

verus! {

/// Something that is ordered by a key it holds.
pub trait Keyed: Copy {
    /// The key the item is ordered by.
    spec fn key_of(&self) -> Pubkey;

    fn sort_key(&self) -> (k: Pubkey)
        ensures
            k == self.key_of(),
    ;
}

impl Keyed for SmartAccountSigner {
    open spec fn key_of(&self) -> Pubkey {
        self.key
    }

    fn sort_key(&self) -> (k: Pubkey) {
        self.key
    }
}

impl Keyed for RestrictedSmartAccountSigner {
    open spec fn key_of(&self) -> Pubkey {
        self.key
    }

    fn sort_key(&self) -> (k: Pubkey) {
        self.key
    }
}

/// How many of the items have a key that is not after `key`.
pub open spec fn count_not_after<T: Keyed>(items: Seq<T>, key: Pubkey) -> nat
    decreases items.len(),
{
    if items.len() == 0 {
        0
    } else {
        count_not_after(items.drop_last(), key) + if key.lt(items.last().key_of()) {
            0nat
        } else {
            1nat
        }
    }
}

/// The items in ascending order of their keys, items with the same key in
/// the order in which they came: each item in turn goes behind those placed
/// so far whose key is not after its own.
pub open spec fn sorted_by_key<T: Keyed>(items: Seq<T>) -> Seq<T>
    decreases items.len(),
{
    if items.len() == 0 {
        items
    } else {
        let placed = sorted_by_key(items.drop_last());
        placed.insert(count_not_after(placed, items.last().key_of()) as int, items.last())
    }
}

/// Sorting keeps the number of items.
pub proof fn lemma_sorted_len<T: Keyed>(items: Seq<T>)
    ensures
        sorted_by_key(items).len() == items.len(),
    decreases items.len(),
{
    if items.len() > 0 {
        lemma_sorted_len(items.drop_last());
        lemma_count_bound(sorted_by_key(items.drop_last()), items.last().key_of());
    }
}

/// No more items are counted than there are.
pub proof fn lemma_count_bound<T: Keyed>(items: Seq<T>, key: Pubkey)
    ensures
        count_not_after(items, key) <= items.len(),
    decreases items.len(),
{
    if items.len() > 0 {
        lemma_count_bound(items.drop_last(), key);
    }
}

/// No item stands before one with a smaller key.
pub open spec fn ascending<T: Keyed>(items: Seq<T>) -> bool {
    forall|i: int, j: int|
        0 <= i < j < items.len() ==> !(#[trigger] items[j]).key_of().lt(
            (#[trigger] items[i]).key_of(),
        )
}

/// Among items in the order of their keys, those with a key not after `key`
/// are the first `count_not_after` of them.
pub proof fn lemma_count_splits<T: Keyed>(items: Seq<T>, key: Pubkey)
    requires
        ascending(items),
    ensures
        count_not_after(items, key) <= items.len(),
        forall|i: int|
            0 <= i < items.len() ==> (key.lt((#[trigger] items[i]).key_of()) <==> i
                >= count_not_after(items, key)),
    decreases items.len(),
{
    if items.len() > 0 {
        let rest = items.drop_last();
        let n = rest.len() as int;
        assert(ascending(rest)) by {
            assert forall|i: int, j: int| 0 <= i < j < rest.len() implies !(#[trigger] rest[j]).key_of().lt(
                (#[trigger] rest[i]).key_of(),
            ) by {
                assert(!items[j].key_of().lt(items[i].key_of()));
            }
        }
        lemma_count_splits(rest, key);
        if !key.lt(items.last().key_of()) {
            // the last is not after the key, so none is
            assert forall|i: int| 0 <= i < n implies !key.lt((#[trigger] rest[i]).key_of()) by {
                assert(!items[n].key_of().lt(items[i].key_of()));
                if key.lt(items[i].key_of()) {
                    lemma_lt_total(items[i].key_of(), items[n].key_of());
                    if items[i].key_of().lt(items[n].key_of()) {
                        lemma_lt_transitive(key, items[i].key_of(), items[n].key_of());
                    }
                }
            }
            if count_not_after(rest, key) < n {
                assert(key.lt(rest[n - 1].key_of()));
            }
        }
        assert forall|i: int| 0 <= i < items.len() implies (key.lt((#[trigger] items[i]).key_of())
            <==> i >= count_not_after(items, key)) by {
            if i < n {
                assert(key.lt(rest[i].key_of()) <==> i >= count_not_after(rest, key));
            }
        }
    }
}

/// What sorting gives is in the order of the keys, and holds the items that
/// were given, each as often as it was given.
pub proof fn lemma_sorted<T: Keyed>(items: Seq<T>)
    ensures
        ascending(sorted_by_key(items)),
        sorted_by_key(items).to_multiset() == items.to_multiset(),
        sorted_by_key(items).len() == items.len(),
    decreases items.len(),
{
    lemma_sorted_len(items);
    if items.len() == 0 {
    } else {
        let rest = items.drop_last();
        let x = items.last();
        let k = x.key_of();
        let placed = sorted_by_key(rest);
        lemma_sorted(rest);
        lemma_count_splits(placed, k);
        let c = count_not_after(placed, k) as int;
        let out = placed.insert(c, x);
        assert forall|i: int, j: int| 0 <= i < j < out.len() implies !(#[trigger] out[j]).key_of().lt(
            (#[trigger] out[i]).key_of(),
        ) by {
            if j < c {
                assert(!placed[j].key_of().lt(placed[i].key_of()));
            } else if j == c {
                assert(!k.lt(placed[i].key_of()));
            } else if i < c {
                assert(!placed[j - 1].key_of().lt(placed[i].key_of()));
            } else if i == c {
                assert(k.lt(placed[j - 1].key_of()));
                lemma_lt_asymmetric(k, placed[j - 1].key_of());
            } else {
                assert(!placed[j - 1].key_of().lt(placed[i - 1].key_of()));
            }
        }
        vstd::seq_lib::to_multiset_insert(placed, c, x);
        assert(rest.push(x) =~= items);
        vstd::seq_lib::to_multiset_build(rest, x);
    }
}

fn place_of<T: Keyed>(items: &Vec<T>, key: &Pubkey) -> (n: usize)
    ensures
        n == count_not_after(items@, *key),
        n <= items@.len(),
{
    let mut n: usize = 0;
    let mut i: usize = 0;
    while i < items.len()
        invariant
            i <= items.len(),
            n <= i,
            n == count_not_after(items@.take(i as int), *key),
        decreases items.len() - i,
    {
        assert(items@.take(i + 1).drop_last() =~= items@.take(i as int));
        let k = items[i].sort_key();
        if !key.precedes(&k) {
            n += 1;
        }
        i += 1;
    }
    assert(items@.take(i as int) =~= items@);
    n
}

/// Sorts the items by their keys, keeping the order of items with the same
/// key.
pub fn sort_by_key<T: Keyed>(items: &Vec<T>) -> (r: Vec<T>)
    ensures
        r@ == sorted_by_key(items@),
        r@.len() == items@.len(),
        ascending(r@),
        r@.to_multiset() == items@.to_multiset(),
{
    let mut r: Vec<T> = Vec::new();
    let mut i: usize = 0;
    assert(items@.take(0) =~= Seq::<T>::empty());
    while i < items.len()
        invariant
            i <= items.len(),
            r@ == sorted_by_key(items@.take(i as int)),
        decreases items.len() - i,
    {
        assert(items@.take(i + 1).drop_last() =~= items@.take(i as int));
        let item = items[i];
        let key = item.sort_key();
        let at = place_of(&r, &key);
        r.insert(at, item);
        i += 1;
    }
    assert(items@.take(i as int) =~= items@);
    proof {
        lemma_sorted(items@);
    }
    r
}

} // verus!
