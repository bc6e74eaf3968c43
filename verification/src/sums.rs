use vstd::prelude::*;

verus! {

/// The sum of all values of a finite map, as a mathematical integer.
///
/// Both ledgers of this crate keep a running total beside a map of balances;
/// their well-formedness says the total equals `map_sum` of the map.
pub open spec fn map_sum<K>(m: Map<K, u128>) -> int
    decreases m.dom().len(),
    when m.dom().finite()
    via map_sum_decreases::<K>
{
    if m.dom().finite() && m.dom().len() > 0 {
        let k = m.dom().choose();
        m[k] + map_sum(m.remove(k))
    } else {
        0
    }
}

#[via_fn]
proof fn map_sum_decreases<K>(m: Map<K, u128>) {
    if m.dom().finite() && m.dom().len() > 0 {
        lemma_nonempty_dom_choose(m);
    }
}

/// The chosen element of a finite, non-empty domain is one of its members.
proof fn lemma_nonempty_dom_choose<K>(m: Map<K, u128>)
    requires
        m.dom().finite(),
        m.dom().len() > 0,
    ensures
        m.dom().contains(m.dom().choose()),
{
    if !m.dom().contains(m.dom().choose()) {
        assert(m.dom() =~= Set::<K>::empty());
    }
}

/// Removing a present key subtracts exactly its value from the sum.
pub proof fn lemma_map_sum_remove<K>(m: Map<K, u128>, k: K)
    requires
        m.dom().finite(),
        m.dom().contains(k),
    ensures
        map_sum(m) == map_sum(m.remove(k)) + m[k],
    decreases m.dom().len(),
{
    lemma_nonempty_dom_choose(m);
    let c = m.dom().choose();
    if c == k {
        // the definition of `map_sum` removes exactly `k` first
    } else {
        let m1 = m.remove(c);
        let m2 = m.remove(k);
        lemma_map_sum_remove(m1, k);
        lemma_map_sum_remove(m2, c);
        assert(m1.remove(k) =~= m2.remove(c));
    }
}

/// A sum of unsigned values is never negative.
pub proof fn lemma_map_sum_nonneg<K>(m: Map<K, u128>)
    requires
        m.dom().finite(),
    ensures
        map_sum(m) >= 0,
    decreases m.dom().len(),
{
    if m.dom().len() > 0 {
        lemma_nonempty_dom_choose(m);
        lemma_map_sum_nonneg(m.remove(m.dom().choose()));
    }
}

/// Each entry of the map is bounded by the sum of all entries.
pub proof fn lemma_map_sum_entry_bound<K>(m: Map<K, u128>, k: K)
    requires
        m.dom().finite(),
        m.dom().contains(k),
    ensures
        m[k] <= map_sum(m),
{
    lemma_map_sum_remove(m, k);
    lemma_map_sum_nonneg(m.remove(k));
}

/// Two distinct entries together are bounded by the sum of all entries.
pub proof fn lemma_map_sum_two_entries_bound<K>(m: Map<K, u128>, k1: K, k2: K)
    requires
        m.dom().finite(),
        m.dom().contains(k1),
        m.dom().contains(k2),
        k1 != k2,
    ensures
        m[k1] + m[k2] <= map_sum(m),
{
    lemma_map_sum_remove(m, k1);
    lemma_map_sum_entry_bound(m.remove(k1), k2);
    lemma_map_sum_nonneg(m.remove(k1).remove(k2));
}

/// Writing a key changes the sum by the difference between the new value and
/// the value the key held before (zero for an absent key).
pub proof fn lemma_map_sum_insert<K>(m: Map<K, u128>, k: K, v: u128)
    requires
        m.dom().finite(),
    ensures
        map_sum(m.insert(k, v)) == map_sum(m) + v - (if m.dom().contains(k) {
            m[k] as int
        } else {
            0
        }),
{
    let mi = m.insert(k, v);
    lemma_map_sum_remove(mi, k);
    if m.dom().contains(k) {
        lemma_map_sum_remove(m, k);
        assert(mi.remove(k) =~= m.remove(k));
    } else {
        assert(mi.remove(k) =~= m);
    }
}

} // verus!
