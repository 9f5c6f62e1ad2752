//! An ordered list of string-keyed entries with unique keys, viewed as a map
//! in which the last write to a key wins.

use vstd::prelude::*;
use vstd::map::*;

verus! {

pub struct Entry<V> {
    pub key: String,
    pub value: V,
}

/// The mapping that a list of entries denotes: later entries shadow earlier
/// ones with the same key.
pub open spec fn entries_map<V>(s: Seq<Entry<V>>) -> Map<Seq<char>, V>
    decreases s.len(),
{
    if s.len() == 0 {
        Map::empty()
    } else {
        entries_map(s.drop_last()).insert(s.last().key@, s.last().value)
    }
}

/// No two entries share a key.
pub open spec fn keys_unique<V>(s: Seq<Entry<V>>) -> bool {
    forall|i: int, j: int| 0 <= i < s.len() && 0 <= j < s.len() && i != j ==> s[i].key@ != s[j].key@
}

proof fn lemma_entries_map_absent<V>(s: Seq<Entry<V>>, k: Seq<char>)
    requires
        forall|i: int| 0 <= i < s.len() ==> s[i].key@ != k,
    ensures
        !entries_map(s).contains_key(k),
    decreases s.len(),
{
    if s.len() > 0 {
        lemma_entries_map_absent(s.drop_last(), k);
    }
}

pub proof fn lemma_entries_map_at<V>(s: Seq<Entry<V>>, i: int)
    requires
        keys_unique(s),
        0 <= i < s.len(),
    ensures
        entries_map(s).contains_key(s[i].key@),
        entries_map(s)[s[i].key@] == s[i].value,
    decreases s.len(),
{
    if i < s.len() - 1 {
        lemma_entries_map_at(s.drop_last(), i);
    }
}

proof fn lemma_entries_map_update<V>(s: Seq<Entry<V>>, i: int, e: Entry<V>)
    requires
        keys_unique(s),
        0 <= i < s.len(),
        s[i].key@ == e.key@,
    ensures
        entries_map(s.update(i, e)) == entries_map(s).insert(e.key@, e.value),
    decreases s.len(),
{
    let t = s.update(i, e);
    if i == s.len() - 1 {
        assert(t.drop_last() =~= s.drop_last());
        assert_maps_equal!(entries_map(t), entries_map(s).insert(e.key@, e.value));
    } else {
        assert(t.drop_last() =~= s.drop_last().update(i, e));
        lemma_entries_map_update(s.drop_last(), i, e);
        assert(s.last().key@ != e.key@);
        assert_maps_equal!(entries_map(t), entries_map(s).insert(e.key@, e.value));
    }
}

/// Position of the entry whose key is `key`, if there is one.
pub fn find_entry<V>(entries: &Vec<Entry<V>>, key: &str) -> (r: Option<usize>)
    ensures
        match r {
            Some(i) => i < entries@.len() && entries@[i as int].key@ == key@,
            None => forall|j: int| 0 <= j < entries@.len() ==> entries@[j].key@ != key@,
        },
{
    let mut i: usize = 0;
    while i < entries.len()
        invariant
            i <= entries@.len(),
            forall|j: int| 0 <= j < i ==> entries@[j].key@ != key@,
        decreases entries@.len() - i,
    {
        if str_eq(entries[i].key.as_str(), key) {
            return Some(i);
        }
        i = i + 1;
    }
    None
}

/// Character-wise equality of two strings.
pub fn str_eq(a: &str, b: &str) -> (r: bool)
    ensures
        r == (a@ == b@),
{
    let n = a.unicode_len();
    if n != b.unicode_len() {
        return false;
    }
    let mut i: usize = 0;
    while i < n
        invariant
            n == a@.len(),
            n == b@.len(),
            i <= n,
            forall|j: int| 0 <= j < i ==> a@[j] == b@[j],
        decreases n - i,
    {
        if a.get_char(i) != b.get_char(i) {
            return false;
        }
        i = i + 1;
    }
    assert(a@ =~= b@);
    true
}

/// Looks up the value stored under `key`.
pub fn lookup<'a, V>(entries: &'a Vec<Entry<V>>, key: &str) -> (r: Option<&'a V>)
    requires
        keys_unique(entries@),
    ensures
        match r {
            Some(v) => entries_map(entries@).contains_key(key@) && *v == entries_map(entries@)[key@],
            None => !entries_map(entries@).contains_key(key@),
        },
{
    match find_entry(entries, key) {
        Some(i) => {
            proof {
                lemma_entries_map_at(entries@, i as int);
            }
            Some(&entries[i].value)
        },
        None => {
            proof {
                lemma_entries_map_absent(entries@, key@);
            }
            None
        },
    }
}

/// Stores `value` under `key`, replacing an earlier value under the same key
/// in place and appending otherwise.
pub fn put_entry<V>(entries: &mut Vec<Entry<V>>, key: String, value: V)
    requires
        keys_unique(old(entries)@),
    ensures
        keys_unique(final(entries)@),
        entries_map(final(entries)@) == entries_map(old(entries)@).insert(key@, value),
{
    let ghost k = key@;
    match find_entry(entries, key.as_str()) {
        Some(i) => {
            let ghost e = Entry { key, value };
            proof {
                lemma_entries_map_update(old(entries)@, i as int, e);
            }
            entries.set(i, Entry { key, value });
            assert(entries@ == old(entries)@.update(i as int, e));
        },
        None => {
            let e = Entry { key, value };
            entries.push(e);
            assert(entries@.drop_last() =~= old(entries)@);
        },
    }
}

/// With unique keys, the mapping has one key per entry.
pub proof fn lemma_entries_map_len<V>(s: Seq<Entry<V>>)
    requires
        keys_unique(s),
    ensures
        entries_map(s).dom().finite(),
        entries_map(s).dom().len() == s.len(),
    decreases s.len(),
{
    if s.len() == 0 {
        assert(entries_map(s).dom() =~= Set::<Seq<char>>::empty());
    } else {
        let t = s.drop_last();
        assert(keys_unique(t)) by {
            assert forall|i: int, j: int|
                0 <= i < t.len() && 0 <= j < t.len() && i != j implies t[i].key@ != t[j].key@ by {
                assert(t[i] == s[i] && t[j] == s[j]);
            }
        }
        lemma_entries_map_len(t);
        assert forall|i: int| 0 <= i < t.len() implies t[i].key@ != s.last().key@ by {
            assert(t[i] == s[i]);
        }
        lemma_entries_map_absent(t, s.last().key@);
        assert(entries_map(s).dom() =~= entries_map(t).dom().insert(s.last().key@));
    }
}

/// Every key of the mapping is the key of some entry.
pub proof fn lemma_entries_map_has<V>(s: Seq<Entry<V>>, k: Seq<char>)
    requires
        entries_map(s).contains_key(k),
    ensures
        exists|i: int| 0 <= i < s.len() && #[trigger] s[i].key@ == k,
    decreases s.len(),
{
    let t = s.drop_last();
    if s.last().key@ == k {
        assert(s[s.len() - 1].key@ == k);
    } else {
        lemma_entries_map_has(t, k);
        let i = choose|i: int| 0 <= i < t.len() && #[trigger] t[i].key@ == k;
        assert(s[i] == t[i]);
    }
}

} // verus!
