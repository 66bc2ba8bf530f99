use vstd::prelude::*;

verus! {

/// The index of the first pair at or after `i` whose key is `k`, or the
/// length of `m` if there is none.
pub open spec fn key_index_from<V>(m: Seq<(Seq<char>, V)>, k: Seq<char>, i: int) -> int
    decreases m.len() - i,
{
    if 0 <= i < m.len() {
        if m[i].0 == k {
            i
        } else {
            key_index_from(m, k, i + 1)
        }
    } else {
        m.len() as int
    }
}

/// The index of the pair whose key is `k`, or the length of `m` if there is none.
pub open spec fn key_index<V>(m: Seq<(Seq<char>, V)>, k: Seq<char>) -> int {
    key_index_from(m, k, 0)
}

/// `m` with `v` stored under `k`: in place where `k` is present, at the end otherwise.
pub open spec fn assoc_insert<V>(m: Seq<(Seq<char>, V)>, k: Seq<char>, v: V) -> Seq<(Seq<char>, V)> {
    let i = key_index(m, k);
    if i < m.len() {
        m.update(i, (k, v))
    } else {
        m.push((k, v))
    }
}

/// The mapping that an ordered list of pairs stands for.
pub open spec fn assoc_map<V>(m: Seq<(Seq<char>, V)>) -> Map<Seq<char>, V> {
    Map::new(|k: Seq<char>| key_index(m, k) < m.len(), |k: Seq<char>| m[key_index(m, k)].1)
}

/// No key occurs twice.
pub open spec fn keys_unique<V>(m: Seq<(Seq<char>, V)>) -> bool {
    forall|i: int, j: int| 0 <= i < j < m.len() ==> m[i].0 != m[j].0
}

/// The pairs with their keys and values seen through their views.
pub open spec fn pairs_view<V: View>(s: Seq<(String, V)>) -> Seq<(Seq<char>, V::V)> {
    s.map_values(|e: (String, V)| (e.0@, e.1@))
}

/// The index found lies between `i` and the length, holds `k` when it is
/// in range, and no earlier index from `i` on holds `k`.
pub proof fn lemma_key_index_from_bounds<V>(m: Seq<(Seq<char>, V)>, k: Seq<char>, i: int)
    requires
        0 <= i <= m.len(),
    ensures
        i <= key_index_from(m, k, i) <= m.len(),
        key_index_from(m, k, i) < m.len() ==> m[key_index_from(m, k, i)].0 == k,
        forall|j: int| i <= j < key_index_from(m, k, i) ==> m[j].0 != k,
    decreases m.len() - i,
{
    if i < m.len() && m[i].0 != k {
        lemma_key_index_from_bounds(m, k, i + 1);
    }
}

/// Inserting keeps the keys unique.
pub proof fn lemma_insert_keeps_keys_unique<V>(m: Seq<(Seq<char>, V)>, k: Seq<char>, v: V)
    requires
        keys_unique(m),
    ensures
        keys_unique(assoc_insert(m, k, v)),
{
    lemma_key_index_from_bounds(m, k, 0);
}

/// The position of `key` in `entries`, or their number if it is absent.
pub fn find_key<V: View>(entries: &Vec<(String, V)>, key: &String) -> (r: usize)
    ensures
        r == key_index(pairs_view(entries@), key@),
{
    let ghost m = pairs_view(entries@);
    let mut i: usize = 0;
    while i < entries.len()
        invariant
            i <= entries.len(),
            m == pairs_view(entries@),
            key_index_from(m, key@, i as int) == key_index(m, key@),
        decreases entries.len() - i,
    {
        if entries[i].0 == *key {
            return i;
        }
        i = i + 1;
    }
    i
}

/// Stores `value` under `key`: in place of the old value where `key` is
/// present, at the end otherwise.
pub fn insert_entry<V: View>(entries: &mut Vec<(String, V)>, key: String, value: V)
    ensures
        pairs_view(final(entries)@) == assoc_insert(pairs_view(old(entries)@), key@, value@),
{
    let i = find_key(entries, &key);
    proof {
        lemma_key_index_from_bounds(pairs_view(old(entries)@), key@, 0);
    }
    if i < entries.len() {
        entries.set(i, (key, value));
        assert(pairs_view(entries@) =~= assoc_insert(pairs_view(old(entries)@), key@, value@));
    } else {
        entries.push((key, value));
        assert(pairs_view(entries@) =~= assoc_insert(pairs_view(old(entries)@), key@, value@));
    }
}

/// The keys of the pairs, in order.
pub open spec fn keys_of<V>(m: Seq<(Seq<char>, V)>) -> Seq<Seq<char>> {
    m.map_values(|p: (Seq<char>, V)| p.0)
}

/// Pairs with unique keys stand for a finite mapping with one key per pair,
/// whose keys are those of the pairs.
pub proof fn lemma_assoc_map_domain<V>(m: Seq<(Seq<char>, V)>)
    requires
        keys_unique(m),
    ensures
        assoc_map(m).dom() == keys_of(m).to_set(),
        assoc_map(m).dom().finite(),
        assoc_map(m).len() == m.len(),
{
    let ks = keys_of(m);
    assert forall|k: Seq<char>| assoc_map(m).dom().contains(k) <==> ks.to_set().contains(k) by {
        lemma_key_index_from_bounds(m, k, 0);
        if ks.contains(k) {
            let i = choose|i: int| 0 <= i < ks.len() && ks[i] == k;
            assert(m[i].0 == k);
        }
        if key_index(m, k) < m.len() {
            assert(ks[key_index(m, k)] == k);
        }
    }
    assert(assoc_map(m).dom() =~= ks.to_set());
    assert(ks.no_duplicates()) by {
        assert forall|i: int, j: int| 0 <= i < ks.len() && 0 <= j < ks.len() && i != j implies ks[i] != ks[j] by {
            if i < j {
                assert(m[i].0 != m[j].0);
            } else {
                assert(m[j].0 != m[i].0);
            }
        }
    }
    ks.unique_seq_to_set();
    vstd::seq_lib::seq_to_set_is_finite(ks);
}

/// The key of every pair is in the mapping.
pub proof fn lemma_assoc_map_contains<V>(m: Seq<(Seq<char>, V)>, i: int)
    requires
        0 <= i < m.len(),
    ensures
        assoc_map(m).contains_key(m[i].0),
{
    lemma_key_index_from_bounds(m, m[i].0, 0);
}

} // verus!
