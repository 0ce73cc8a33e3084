//! Name-keyed association lists. The supervisor's handle table and status
//! tracker are vectors of entries with pairwise-distinct keys; their
//! mathematical image is a finite `Map` from character sequences to values.

use vstd::prelude::*;

verus! {

/// One key/value pair of an association list.
pub struct Entry<V> {
    pub key: String,
    pub val: V,
}

/// The map an association list stands for; a later entry with the same key
/// would shadow an earlier one, but well-formed lists have distinct keys.
pub open spec fn assoc_map<V: View>(s: Seq<Entry<V>>) -> Map<Seq<char>, V::V>
    decreases s.len(),
{
    if s.len() == 0 {
        Map::empty()
    } else {
        assoc_map(s.drop_last()).insert(s.last().key@, s.last().val@)
    }
}

/// All keys of the list are pairwise distinct.
pub open spec fn keys_distinct<V>(s: Seq<Entry<V>>) -> bool {
    forall|i: int, j: int| 0 <= i < j < s.len() ==> s[i].key@ != s[j].key@
}

/// The map contains exactly the keys that occur in the list.
pub proof fn lemma_assoc_map_contains<V: View>(s: Seq<Entry<V>>, k: Seq<char>)
    ensures
        assoc_map(s).contains_key(k) <==> exists|i: int| 0 <= i < s.len() && s[i].key@ == k,
    decreases s.len(),
{
    if s.len() > 0 {
        lemma_assoc_map_contains(s.drop_last(), k);
        if s.last().key@ == k {
            assert(s[s.len() - 1].key@ == k);
        } else {
            if exists|i: int| 0 <= i < s.len() && s[i].key@ == k {
                let i = choose|i: int| 0 <= i < s.len() && s[i].key@ == k;
                assert(s.drop_last()[i] == s[i]);
            }
        }
    }
}

/// With distinct keys, the map takes each listed key to that entry's value.
pub proof fn lemma_assoc_map_get<V: View>(s: Seq<Entry<V>>, i: int)
    requires
        keys_distinct(s),
        0 <= i < s.len(),
    ensures
        assoc_map(s).contains_key(s[i].key@),
        assoc_map(s)[s[i].key@] == s[i].val@,
    decreases s.len(),
{
    if i == s.len() - 1 {
    } else {
        assert(s.drop_last()[i] == s[i]);
        lemma_assoc_map_get(s.drop_last(), i);
        assert(s[i].key@ != s.last().key@);
    }
}

/// Appending an entry inserts its binding into the map.
pub proof fn lemma_assoc_map_push<V: View>(s: Seq<Entry<V>>, e: Entry<V>)
    ensures
        assoc_map(s.push(e)) == assoc_map(s).insert(e.key@, e.val@),
{
    assert(s.push(e).drop_last() =~= s);
    assert(s.push(e).last() == e);
}

/// With distinct keys, removing the entry at `i` removes its key from the map.
pub proof fn lemma_assoc_map_remove<V: View>(s: Seq<Entry<V>>, i: int)
    requires
        keys_distinct(s),
        0 <= i < s.len(),
    ensures
        assoc_map(s.remove(i)) =~= assoc_map(s).remove(s[i].key@),
        keys_distinct(s.remove(i)),
    decreases s.len(),
{
    lemma_assoc_map_contains(s.drop_last(), s[i].key@);
    if i == s.len() - 1 {
        assert(s.remove(i) =~= s.drop_last());
        assert(!assoc_map(s.drop_last()).contains_key(s[i].key@));
    } else {
        assert(s.remove(i).drop_last() =~= s.drop_last().remove(i));
        assert(s.remove(i).last() == s.last());
        lemma_assoc_map_remove(s.drop_last(), i);
        assert(s.drop_last()[i] == s[i]);
        assert(s[i].key@ != s.last().key@);
    }
}

/// With distinct keys, replacing the entry at `i` by one with the same key
/// overwrites that key's binding in the map.
pub proof fn lemma_assoc_map_update<V: View>(s: Seq<Entry<V>>, i: int, e: Entry<V>)
    requires
        keys_distinct(s),
        0 <= i < s.len(),
        e.key@ == s[i].key@,
    ensures
        assoc_map(s.update(i, e)) =~= assoc_map(s).insert(e.key@, e.val@),
        keys_distinct(s.update(i, e)),
    decreases s.len(),
{
    if i == s.len() - 1 {
        assert(s.update(i, e).drop_last() =~= s.drop_last());
        assert(s.update(i, e).last() == e);
    } else {
        assert(s.update(i, e).drop_last() =~= s.drop_last().update(i, e));
        assert(s.update(i, e).last() == s.last());
        assert(s.drop_last()[i] == s[i]);
        lemma_assoc_map_update(s.drop_last(), i, e);
        assert(s[i].key@ != s.last().key@);
    }
}

/// Index of the entry holding `key`, or `None` when no entry does.
pub fn find_entry<V>(entries: &Vec<Entry<V>>, key: &String) -> (r: Option<usize>)
    ensures
        match r {
            Some(i) => i < entries@.len() && entries@[i as int].key@ == key@,
            None => forall|i: int| 0 <= i < entries@.len() ==> entries@[i].key@ != key@,
        },
{
    let n = entries.len();
    let mut i: usize = 0;
    while i < n
        invariant
            n == entries@.len(),
            i <= n,
            forall|j: int| 0 <= j < i ==> entries@[j].key@ != key@,
        decreases n - i,
    {
        if entries[i].key == *key {
            return Some(i);
        }
        i = i + 1;
    }
    None
}

} // verus!
