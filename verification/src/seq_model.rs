//! Two notions on sequences that the records' contracts are stated with: the
//! first position of a key, and the sum of a sequence of amounts.

use vstd::prelude::*;

verus! {

/// `i` is the first position at which `key` stands in `keys`.
pub open spec fn is_first<K>(keys: Seq<K>, key: K, i: int) -> bool {
    &&& 0 <= i < keys.len()
    &&& keys[i] == key
    &&& forall|j: int| 0 <= j < i ==> keys[j] != key
}

/// `key` stands nowhere in `keys`.
pub open spec fn absent<K>(keys: Seq<K>, key: K) -> bool {
    forall|j: int| 0 <= j < keys.len() ==> keys[j] != key
}

/// The first position of `key` in `keys`, if it stands there at all.
pub open spec fn position<K>(keys: Seq<K>, key: K) -> Option<int> {
    if exists|i: int| is_first(keys, key, i) {
        Some(choose|i: int| is_first(keys, key, i))
    } else {
        None
    }
}

/// No key stands twice in `keys`.
pub open spec fn distinct<K>(keys: Seq<K>) -> bool {
    forall|i: int, j: int| 0 <= i < j < keys.len() ==> keys[i] != keys[j]
}

/// A first position is the position.
pub proof fn lemma_position_is<K>(keys: Seq<K>, key: K, i: int)
    requires
        is_first(keys, key, i),
    ensures
        position(keys, key) == Some(i),
{
    let c = choose|c: int| is_first(keys, key, c);
    assert(is_first(keys, key, c));
    if c < i {
        assert(keys[c] != key);
    }
    if i < c {
        assert(keys[i] != key);
    }
}

/// A key that stands nowhere has no position.
pub proof fn lemma_position_none<K>(keys: Seq<K>, key: K)
    requires
        absent(keys, key),
    ensures
        position(keys, key) is None,
{
    if exists|i: int| is_first(keys, key, i) {
        let c = choose|c: int| is_first(keys, key, c);
        assert(keys[c] != key);
    }
}

/// What `position` answers: a first position, or that the key is absent.
pub proof fn lemma_position<K>(keys: Seq<K>, key: K)
    ensures
        match position(keys, key) {
            Some(i) => is_first(keys, key, i),
            None => absent(keys, key),
        },
{
    if exists|i: int| is_first(keys, key, i) {
    } else {
        lemma_absent_by_search(keys, key, keys.len() as int);
    }
}

/// If no position is a first one, the key stands nowhere below `n`.
proof fn lemma_absent_by_search<K>(keys: Seq<K>, key: K, n: int)
    requires
        0 <= n <= keys.len(),
        !exists|i: int| is_first(keys, key, i),
    ensures
        forall|j: int| 0 <= j < n ==> keys[j] != key,
    decreases n,
{
    if n > 0 {
        lemma_absent_by_search(keys, key, n - 1);
        if keys[n - 1] == key {
            assert(is_first(keys, key, n - 1));
        }
    }
}

/// Appending a key leaves the position of every other key as it was, and
/// gives the appended key the last place if it did not stand in the sequence.
pub proof fn lemma_position_push<K>(keys: Seq<K>, appended: K, key: K)
    ensures
        position(keys.push(appended), key) == if position(keys, key) is Some {
            position(keys, key)
        } else if key == appended {
            Some(keys.len() as int)
        } else {
            None
        },
{
    let after = keys.push(appended);
    lemma_position(keys, key);
    match position(keys, key) {
        Some(i) => {
            assert(is_first(after, key, i));
            lemma_position_is(after, key, i);
        },
        None => {
            if key == appended {
                assert(is_first(after, key, keys.len() as int));
                lemma_position_is(after, key, keys.len() as int);
            } else {
                assert(absent(after, key));
                lemma_position_none(after, key);
            }
        },
    }
}

/// The sum of a sequence of amounts.
pub open spec fn sum(amounts: Seq<int>) -> int
    decreases amounts.len(),
{
    if amounts.len() == 0 {
        0
    } else {
        sum(amounts.drop_last()) + amounts.last()
    }
}

/// Appending an amount adds it to the sum.
pub proof fn lemma_sum_push(amounts: Seq<int>, x: int)
    ensures
        sum(amounts.push(x)) == sum(amounts) + x,
{
    assert(amounts.push(x).drop_last() =~= amounts);
}

/// Replacing one amount changes the sum by the difference.
pub proof fn lemma_sum_update(amounts: Seq<int>, i: int, x: int)
    requires
        0 <= i < amounts.len(),
    ensures
        sum(amounts.update(i, x)) == sum(amounts) - amounts[i] + x,
    decreases amounts.len(),
{
    if i == amounts.len() - 1 {
        assert(amounts.update(i, x).drop_last() =~= amounts.drop_last());
    } else {
        lemma_sum_update(amounts.drop_last(), i, x);
        assert(amounts.update(i, x).drop_last() =~= amounts.drop_last().update(i, x));
    }
}

/// A sum of amounts that are not negative is not negative, and no single
/// amount exceeds it.
pub proof fn lemma_sum_bounds(amounts: Seq<int>, i: int)
    requires
        forall|j: int| 0 <= j < amounts.len() ==> amounts[j] >= 0,
        0 <= i < amounts.len(),
    ensures
        0 <= amounts[i] <= sum(amounts),
    decreases amounts.len(),
{
    lemma_sum_nonnegative(amounts.drop_last());
    if i < amounts.len() - 1 {
        lemma_sum_bounds(amounts.drop_last(), i);
    }
}

/// A sum of amounts that are not negative is not negative.
pub proof fn lemma_sum_nonnegative(amounts: Seq<int>)
    requires
        forall|j: int| 0 <= j < amounts.len() ==> amounts[j] >= 0,
    ensures
        0 <= sum(amounts),
    decreases amounts.len(),
{
    if amounts.len() > 0 {
        lemma_sum_nonnegative(amounts.drop_last());
    }
}

/// Noughts sum to nought.
pub proof fn lemma_sum_of_noughts(amounts: Seq<int>)
    requires
        forall|i: int| 0 <= i < amounts.len() ==> amounts[i] == 0,
    ensures
        sum(amounts) == 0,
    decreases amounts.len(),
{
    if amounts.len() > 0 {
        lemma_sum_of_noughts(amounts.drop_last());
    }
}

/// A sum is not more than the sum of amounts that are not less, place by
/// place.
pub proof fn lemma_sum_monotone(less: Seq<int>, more: Seq<int>)
    requires
        less.len() == more.len(),
        forall|i: int| 0 <= i < less.len() ==> less[i] <= more[i],
    ensures
        sum(less) <= sum(more),
    decreases less.len(),
{
    if less.len() > 0 {
        lemma_sum_monotone(less.drop_last(), more.drop_last());
    }
}

} // verus!
