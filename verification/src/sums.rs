//! Sums over a finite set of order numbers.

use vstd::prelude::*;

verus! {

/// The sum of `weight(key)` over all keys of a finite set.
pub open spec fn sum_over(keys: Set<u64>, weight: spec_fn(u64) -> int) -> int
    decreases keys.len(),
    when keys.finite()
{
    if keys.len() == 0 {
        0
    } else {
        let key = keys.choose();
        weight(key) + sum_over(keys.remove(key), weight)
    }
}

/// Any key of the set can be taken out of the sum first.
pub proof fn lemma_sum_remove(keys: Set<u64>, weight: spec_fn(u64) -> int, key: u64)
    requires
        keys.finite(),
        keys.contains(key),
    ensures
        sum_over(keys, weight) == weight(key) + sum_over(keys.remove(key), weight),
    decreases keys.len(),
{
    let first = keys.choose();
    if first != key {
        lemma_sum_remove(keys.remove(first), weight, key);
        lemma_sum_remove(keys.remove(key), weight, first);
        assert(keys.remove(first).remove(key) =~= keys.remove(key).remove(first));
    }
}

/// The sum over a set with one more key.
pub proof fn lemma_sum_insert(keys: Set<u64>, weight: spec_fn(u64) -> int, key: u64)
    requires
        keys.finite(),
        !keys.contains(key),
    ensures
        sum_over(keys.insert(key), weight) == weight(key) + sum_over(keys, weight),
{
    lemma_sum_remove(keys.insert(key), weight, key);
    assert(keys.insert(key).remove(key) =~= keys);
}

/// The sum depends on the weights of the set's own keys alone.
pub proof fn lemma_sum_same(
    keys: Set<u64>,
    weight: spec_fn(u64) -> int,
    other: spec_fn(u64) -> int,
)
    requires
        keys.finite(),
        forall|key: u64| #[trigger] keys.contains(key) ==> weight(key) == other(key),
    ensures
        sum_over(keys, weight) == sum_over(keys, other),
    decreases keys.len(),
{
    if keys.len() != 0 {
        let first = keys.choose();
        assert(keys.contains(first));
        lemma_sum_same(keys.remove(first), weight, other);
    }
}

} // verus!
