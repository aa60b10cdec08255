//! Association lists read as maps in which a later entry for a key replaces
//! an earlier one, the way inserting into a hash map behaves.

use crate::text::str_eq;
use vstd::prelude::*;

verus! {

/// The map that inserting the pairs of `s` in order builds.
pub open spec fn pairs_map<K, V>(s: Seq<(K, V)>) -> Map<K, V>
    decreases s.len(),
{
    if s.len() == 0 {
        Map::empty()
    } else {
        pairs_map(s.drop_last()).insert(s.last().0, s.last().1)
    }
}

/// Entries after `k` do not mention `key`, so they leave its binding as the
/// first `k` entries made it.
pub proof fn lemma_pairs_map_suffix<K, V>(s: Seq<(K, V)>, k: int, key: K)
    requires
        0 <= k <= s.len(),
        forall|j: int| k <= j < s.len() ==> (#[trigger] s[j]).0 != key,
    ensures
        pairs_map(s).contains_key(key) == pairs_map(s.take(k)).contains_key(key),
        pairs_map(s).contains_key(key) ==> pairs_map(s)[key] == pairs_map(s.take(k))[key],
    decreases s.len(),
{
    if s.len() == k {
        assert(s.take(k) =~= s);
    } else {
        let t = s.drop_last();
        assert(t.take(k) =~= s.take(k));
        assert(s[s.len() - 1].0 != key);
        lemma_pairs_map_suffix(t, k, key);
    }
}

/// The binding of `key` is the last entry that mentions it.
pub proof fn lemma_pairs_map_last<K, V>(s: Seq<(K, V)>, i: int, key: K)
    requires
        0 <= i < s.len(),
        s[i].0 == key,
        forall|j: int| i < j < s.len() ==> (#[trigger] s[j]).0 != key,
    ensures
        pairs_map(s).contains_key(key),
        pairs_map(s)[key] == s[i].1,
{
    lemma_pairs_map_suffix(s, i + 1, key);
    let t = s.take(i + 1);
    assert(t.drop_last() =~= s.take(i));
    assert(t.last() == s[i]);
}

/// A key that no entry mentions is unbound.
pub proof fn lemma_pairs_map_absent<K, V>(s: Seq<(K, V)>, key: K)
    requires
        forall|j: int| 0 <= j < s.len() ==> (#[trigger] s[j]).0 != key,
    ensures
        !pairs_map(s).contains_key(key),
{
    lemma_pairs_map_suffix(s, 0, key);
    assert(s.take(0) =~= Seq::<(K, V)>::empty());
}

/// The views of text pairs.
pub open spec fn pair_views(s: Seq<(String, String)>) -> Seq<(Seq<char>, Seq<char>)> {
    s.map_values(|e: (String, String)| (e.0@, e.1@))
}

/// The position of the entry that binds `key`: the last one that mentions it.
pub fn find_last(pairs: &Vec<(String, String)>, key: &str) -> (r: Option<usize>)
    ensures
        r is Some <==> pairs_map(pair_views(pairs@)).contains_key(key@),
        r matches Some(i) ==> i < pairs@.len() && pairs@[i as int].0@ == key@ && pairs@[i as int].1@
            == pairs_map(pair_views(pairs@))[key@],
{
    let ghost views = pair_views(pairs@);
    let mut i = pairs.len();
    while i > 0
        invariant
            i <= pairs@.len(),
            views == pair_views(pairs@),
            views.len() == pairs@.len(),
            forall|j: int| i <= j < views.len() ==> (#[trigger] views[j]).0 != key@,
        decreases i,
    {
        i = i - 1;
        assert(views[i as int].0 == pairs@[i as int].0@);
        if str_eq(pairs[i].0.as_str(), key) {
            proof {
                lemma_pairs_map_last(views, i as int, key@);
            }
            return Some(i);
        }
    }
    proof {
        lemma_pairs_map_absent(views, key@);
    }
    None
}

} // verus!
