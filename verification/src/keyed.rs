//! Lists of keyed entries read as maps, and sums over lists of amounts.
//!
//! The ledger keeps its records in lists in which no key occurs twice. The
//! lemmas here say what such a list, read as a map, becomes when an entry is
//! added or replaced.

use vstd::prelude::*;

verus! {

/// The map that sends each key in `keys` to the value at the same place in
/// `vals`.
pub open spec fn to_map<K, V>(keys: Seq<K>, vals: Seq<V>) -> Map<K, V> {
    Map::new(|k: K| keys.contains(k), |k: K| vals[keys.index_of(k)])
}

/// The map that sends each key in `keys` to the amount at the same place in
/// `amounts`, and every other key to zero.
pub open spec fn to_balances<K>(keys: Seq<K>, amounts: Seq<u64>) -> Map<K, nat> {
    Map::total(
        |k: K|
            if keys.contains(k) {
                amounts[keys.index_of(k)] as nat
            } else {
                0nat
            },
    )
}

/// The sum of `amounts`.
pub open spec fn total(amounts: Seq<u64>) -> nat
    decreases amounts.len(),
{
    if amounts.len() == 0 {
        0
    } else {
        total(amounts.drop_last()) + amounts.last() as nat
    }
}

/// In a list without repeated keys, a key is found at the place where it
/// stands.
pub proof fn lemma_index_of<K>(keys: Seq<K>, i: int)
    requires
        keys.no_duplicates(),
        0 <= i < keys.len(),
    ensures
        keys.contains(keys[i]),
        keys.index_of(keys[i]) == i,
{
    let j = keys.index_of(keys[i]);
    assert(0 <= j < keys.len() && keys[j] == keys[i]);
}

/// Adding a key leaves every other key where it was.
pub proof fn lemma_push_keeps<K>(keys: Seq<K>, fresh: K, k: K)
    requires
        keys.no_duplicates(),
        !keys.contains(fresh),
    ensures
        keys.push(fresh).no_duplicates(),
        keys.push(fresh).contains(k) <==> (k == fresh || keys.contains(k)),
        keys.push(fresh).contains(k) ==> keys.push(fresh).index_of(k) == (if k == fresh {
            keys.len() as int
        } else {
            keys.index_of(k)
        }),
{
    let longer = keys.push(fresh);
    assert forall|i: int, j: int|
        0 <= i < longer.len() && 0 <= j < longer.len() && i != j implies longer[i] != longer[j] by {
        if i < keys.len() && j < keys.len() {
            assert(keys[i] != keys[j]);
        } else if i < keys.len() {
            assert(keys[i] == longer[i]);
        } else {
            assert(keys[j] == longer[j]);
        }
    }
    assert(longer[keys.len() as int] == fresh);
    if keys.contains(k) {
        let i = keys.index_of(k);
        assert(longer[i] == k);
    }
    if longer.contains(k) {
        let i = longer.index_of(k);
        if i < keys.len() {
            assert(keys[i] == k);
            lemma_index_of(keys, i);
        }
        lemma_index_of(longer, i);
    }
}

/// Adding an entry under a new key inserts it into the map.
pub proof fn lemma_to_map_push<K, V>(keys: Seq<K>, vals: Seq<V>, k: K, v: V)
    requires
        keys.len() == vals.len(),
        keys.no_duplicates(),
        !keys.contains(k),
    ensures
        keys.push(k).no_duplicates(),
        to_map(keys.push(k), vals.push(v)) == to_map(keys, vals).insert(k, v),
{
    lemma_push_keeps(keys, k, k);
    let before = to_map(keys, vals);
    let after = to_map(keys.push(k), vals.push(v));
    assert forall|q: K| after.contains_key(q) <==> before.insert(k, v).contains_key(q) by {
        lemma_push_keeps(keys, k, q);
    }
    assert forall|q: K| after.contains_key(q) implies after[q] == before.insert(k, v)[q] by {
        lemma_push_keeps(keys, k, q);
    }
    assert(after =~= before.insert(k, v));
}

/// The map holds at each key the value that stands at the key's place.
pub proof fn lemma_to_map_at<K, V>(keys: Seq<K>, vals: Seq<V>, i: int)
    requires
        keys.len() == vals.len(),
        keys.no_duplicates(),
        0 <= i < keys.len(),
    ensures
        to_map(keys, vals).contains_key(keys[i]),
        to_map(keys, vals)[keys[i]] == vals[i],
{
    lemma_index_of(keys, i);
}

/// A key that stands nowhere in the list is not in the map.
pub proof fn lemma_to_map_absent<K, V>(keys: Seq<K>, vals: Seq<V>, k: K)
    requires
        forall|i: int| 0 <= i < keys.len() ==> keys[i] != k,
    ensures
        !to_map(keys, vals).contains_key(k),
        !keys.contains(k),
{
}

/// The balance of a key that stands in the list is the amount at its place.
pub proof fn lemma_to_balances_at<K>(keys: Seq<K>, amounts: Seq<u64>, i: int)
    requires
        keys.len() == amounts.len(),
        keys.no_duplicates(),
        0 <= i < keys.len(),
    ensures
        to_balances(keys, amounts)[keys[i]] == amounts[i] as nat,
{
    lemma_index_of(keys, i);
}

/// The balance of a key that stands nowhere in the list is zero.
pub proof fn lemma_to_balances_absent<K>(keys: Seq<K>, amounts: Seq<u64>, k: K)
    requires
        forall|i: int| 0 <= i < keys.len() ==> keys[i] != k,
    ensures
        !keys.contains(k),
        to_balances(keys, amounts)[k] == 0,
{
}

/// Adding a key with an amount sets that key's balance and no other.
pub proof fn lemma_to_balances_push<K>(keys: Seq<K>, amounts: Seq<u64>, k: K, amount: u64)
    requires
        keys.len() == amounts.len(),
        keys.no_duplicates(),
        !keys.contains(k),
    ensures
        keys.push(k).no_duplicates(),
        to_balances(keys.push(k), amounts.push(amount)) == to_balances(keys, amounts).insert(
            k,
            amount as nat,
        ),
{
    lemma_push_keeps(keys, k, k);
    let before = to_balances(keys, amounts);
    let after = to_balances(keys.push(k), amounts.push(amount));
    assert forall|q: K| after[q] == before.insert(k, amount as nat)[q] by {
        lemma_push_keeps(keys, k, q);
    }
    assert(after =~= before.insert(k, amount as nat));
}

/// Replacing the amount at one place sets that key's balance and no other.
pub proof fn lemma_to_balances_update<K>(keys: Seq<K>, amounts: Seq<u64>, i: int, amount: u64)
    requires
        keys.len() == amounts.len(),
        keys.no_duplicates(),
        0 <= i < keys.len(),
    ensures
        to_balances(keys, amounts.update(i, amount)) == to_balances(keys, amounts).insert(
            keys[i],
            amount as nat,
        ),
{
    let before = to_balances(keys, amounts);
    let after = to_balances(keys, amounts.update(i, amount));
    lemma_index_of(keys, i);
    assert forall|q: K| after[q] == before.insert(keys[i], amount as nat)[q] by {
        if keys.contains(q) {
            let j = keys.index_of(q);
            assert(keys[j] == q);
        }
    }
    assert(after =~= before.insert(keys[i], amount as nat));
}

/// Adding an amount to the list adds it to the sum.
pub proof fn lemma_total_push(amounts: Seq<u64>, amount: u64)
    ensures
        total(amounts.push(amount)) == total(amounts) + amount,
{
    assert(amounts.push(amount).drop_last() =~= amounts);
}

/// Replacing one amount changes the sum by the difference.
pub proof fn lemma_total_update(amounts: Seq<u64>, i: int, amount: u64)
    requires
        0 <= i < amounts.len(),
    ensures
        total(amounts.update(i, amount)) == total(amounts) - amounts[i] + amount,
    decreases amounts.len(),
{
    let changed = amounts.update(i, amount);
    if i == amounts.len() - 1 {
        assert(changed.drop_last() =~= amounts.drop_last());
    } else {
        lemma_total_update(amounts.drop_last(), i, amount);
        assert(changed.drop_last() =~= amounts.drop_last().update(i, amount));
    }
}

/// No amount is larger than the sum.
pub proof fn lemma_total_bounds_one(amounts: Seq<u64>, i: int)
    requires
        0 <= i < amounts.len(),
    ensures
        amounts[i] <= total(amounts),
    decreases amounts.len(),
{
    if i < amounts.len() - 1 {
        lemma_total_bounds_one(amounts.drop_last(), i);
    }
}

/// No two amounts at different places are together larger than the sum.
pub proof fn lemma_total_bounds_two(amounts: Seq<u64>, i: int, j: int)
    requires
        0 <= i < amounts.len(),
        0 <= j < amounts.len(),
        i != j,
    ensures
        amounts[i] + amounts[j] <= total(amounts),
    decreases amounts.len(),
{
    let last = amounts.len() - 1;
    if i == last {
        lemma_total_bounds_one(amounts.drop_last(), j);
    } else if j == last {
        lemma_total_bounds_one(amounts.drop_last(), i);
    } else {
        lemma_total_bounds_two(amounts.drop_last(), i, j);
    }
}

} // verus!
