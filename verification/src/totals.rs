//! Totals over finite maps: the sum of a weight of every entry, and how it changes when one
//! entry is written.
use vstd::prelude::*;

verus! {

/// The sum of `weight(k, m[k])` over the keys `k` of the finite map `m`.
pub open spec fn map_total<K, V>(m: Map<K, V>, weight: spec_fn(K, V) -> int) -> int
    decreases m.dom().len(),
    when m.dom().finite()
{
    if m.dom().len() == 0 {
        0
    } else {
        let k = m.dom().choose();
        weight(k, m[k]) + map_total(m.remove(k), weight)
    }
}

/// The total of an empty map is zero.
pub proof fn lemma_map_total_empty<K, V>(weight: spec_fn(K, V) -> int)
    ensures
        map_total(Map::<K, V>::empty(), weight) == 0,
{
    assert(Map::<K, V>::empty().dom() =~= Set::<K>::empty());
}

/// The total is the weight of any one entry plus the total of the other entries.
pub proof fn lemma_map_total_remove<K, V>(m: Map<K, V>, weight: spec_fn(K, V) -> int, k: K)
    requires
        m.dom().finite(),
        m.dom().contains(k),
    ensures
        map_total(m, weight) == weight(k, m[k]) + map_total(m.remove(k), weight),
    decreases m.dom().len(),
{
    let c = m.dom().choose();
    assert(m.dom().len() > 0);
    if c != k {
        lemma_map_total_remove(m.remove(c), weight, k);
        lemma_map_total_remove(m.remove(k), weight, c);
        assert(m.remove(c).remove(k) =~= m.remove(k).remove(c));
    }
}

/// Writing `v` under `k` changes the total by the new weight minus the weight it replaces.
pub proof fn lemma_map_total_insert<K, V>(m: Map<K, V>, weight: spec_fn(K, V) -> int, k: K, v: V)
    requires
        m.dom().finite(),
    ensures
        map_total(m.insert(k, v), weight) == map_total(m, weight) - (if m.dom().contains(k) {
            weight(k, m[k])
        } else {
            0
        }) + weight(k, v),
{
    lemma_map_total_remove(m.insert(k, v), weight, k);
    if m.dom().contains(k) {
        lemma_map_total_remove(m, weight, k);
        assert(m.insert(k, v).remove(k) =~= m.remove(k));
    } else {
        assert(m.insert(k, v).remove(k) =~= m);
    }
}

} // verus!
