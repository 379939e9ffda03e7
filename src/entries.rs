use vstd::prelude::*;

verus! {

/// The map that a list of keyed entries stands for: a later entry for a key
/// replaces an earlier one, as when the list is collected into a map.
pub open spec fn entries_map<K: View, V>(s: Seq<(K, V)>) -> Map<K::V, V>
    decreases s.len(),
{
    if s.len() == 0 {
        Map::empty()
    } else {
        entries_map(s.drop_last()).insert(s.last().0@, s.last().1)
    }
}

/// Appending an entry sets its key and leaves the other keys alone.
pub proof fn lemma_entries_push<K: View, V>(s: Seq<(K, V)>, e: (K, V))
    ensures
        entries_map(s.push(e)) == entries_map(s).insert(e.0@, e.1),
{
    assert(s.push(e).drop_last() =~= s);
}

/// Set `key` to `value` in the map that `entries` stands for.
pub fn put_entry<K: View, V>(entries: &mut Vec<(K, V)>, key: K, value: V)
    ensures
        final(entries)@ == old(entries)@.push((key, value)),
        entries_map(final(entries)@) == entries_map(old(entries)@).insert(key@, value),
{
    proof {
        lemma_entries_push(entries@, (key, value));
    }
    entries.push((key, value));
}

/// The last entry for a key gives its value in the map.
pub proof fn lemma_entries_last<K: View, V>(s: Seq<(K, V)>, k: K::V, j: int)
    requires
        0 <= j < s.len(),
        s[j].0@ == k,
        forall|m: int| j < m < s.len() ==> (#[trigger] s[m]).0@ != k,
    ensures
        entries_map(s).contains_key(k),
        entries_map(s)[k] == s[j].1,
    decreases s.len(),
{
    if j < s.len() - 1 {
        lemma_entries_last(s.drop_last(), k, j);
        assert(s[s.len() - 1].0@ != k);
    }
}

/// A key that no entry has is not in the map.
pub proof fn lemma_entries_absent<K: View, V>(s: Seq<(K, V)>, k: K::V)
    requires
        forall|m: int| 0 <= m < s.len() ==> (#[trigger] s[m]).0@ != k,
    ensures
        !entries_map(s).contains_key(k),
    decreases s.len(),
{
    if s.len() > 0 {
        lemma_entries_absent(s.drop_last(), k);
        assert(s[s.len() - 1].0@ != k);
    }
}

/// The value that the map of `entries` holds under a string key.
pub fn lookup_by_str<'a, V>(entries: &'a Vec<(String, V)>, key: &String) -> (r: Option<&'a V>)
    ensures
        match r {
            Some(v) => entries_map(entries@).contains_key(key@) && entries_map(entries@)[key@]
                == *v,
            None => !entries_map(entries@).contains_key(key@),
        },
{
    let mut i: usize = entries.len();
    while i > 0
        invariant
            i <= entries@.len(),
            forall|m: int| i <= m < entries@.len() ==> (#[trigger] entries@[m]).0@ != key@,
        decreases i,
    {
        if entries[i - 1].0 == *key {
            proof {
                lemma_entries_last(entries@, key@, i - 1);
            }
            return Some(&entries[i - 1].1);
        }
        i = i - 1;
    }
    proof {
        lemma_entries_absent(entries@, key@);
    }
    None
}

} // verus!
