use vstd::prelude::*;
use crate::strings::str_eq;

verus! {

/// The map that a list of keyed entries stands for: entries are inserted in
/// order, so a later entry hides an earlier one under the same key.
pub open spec fn pairs_view<T>(s: Seq<(String, T)>) -> Map<Seq<char>, T>
    decreases s.len(),
{
    if s.len() == 0 {
        Map::empty()
    } else {
        pairs_view(s.drop_last()).insert(s.last().0@, s.last().1)
    }
}

pub proof fn lemma_pairs_view_push<T>(s: Seq<(String, T)>, e: (String, T))
    ensures
        pairs_view(s.push(e)) == pairs_view(s).insert(e.0@, e.1),
{
    assert(s.push(e).drop_last() =~= s);
}

pub proof fn lemma_pairs_view_dom<T>(s: Seq<(String, T)>, key: Seq<char>)
    ensures
        pairs_view(s).contains_key(key) <==> exists|j: int| 0 <= j < s.len() && #[trigger] s[j].0@ == key,
    decreases s.len(),
{
    if s.len() > 0 {
        let t = s.drop_last();
        lemma_pairs_view_dom(t, key);
        if pairs_view(s).contains_key(key) {
            if s.last().0@ != key {
                let j = choose|j: int| 0 <= j < t.len() && #[trigger] t[j].0@ == key;
                assert(s[j].0@ == key);
            }
        }
        if exists|j: int| 0 <= j < s.len() && #[trigger] s[j].0@ == key {
            let j = choose|j: int| 0 <= j < s.len() && #[trigger] s[j].0@ == key;
            if j < s.len() - 1 {
                assert(t[j].0@ == key);
            }
        }
    }
}

pub proof fn lemma_pairs_view_last<T>(s: Seq<(String, T)>, i: int, key: Seq<char>)
    requires
        0 <= i < s.len(),
        s[i].0@ == key,
        forall|j: int| i < j < s.len() ==> #[trigger] s[j].0@ != key,
    ensures
        pairs_view(s).contains_key(key),
        pairs_view(s)[key] == s[i].1,
    decreases s.len(),
{
    if i < s.len() - 1 {
        let t = s.drop_last();
        assert forall|j: int| i < j < t.len() implies #[trigger] t[j].0@ != key by {
            assert(t[j] == s[j]);
        }
        lemma_pairs_view_last(t, i, key);
    }
}

/// The index of the entry that gives the value under `key`: the last one that
/// carries it.
pub fn pairs_find<T>(entries: &Vec<(String, T)>, key: &str) -> (r: Option<usize>)
    ensures
        match r {
            Some(i) => {
                &&& i < entries@.len()
                &&& entries@[i as int].0@ == key@
                &&& pairs_view(entries@).contains_key(key@)
                &&& pairs_view(entries@)[key@] == entries@[i as int].1
            },
            None => !pairs_view(entries@).contains_key(key@),
        },
{
    let mut i: usize = entries.len();
    while i > 0
        invariant
            i <= entries@.len(),
            forall|j: int| i <= j < entries@.len() ==> #[trigger] entries@[j].0@ != key@,
        decreases i,
    {
        let k: usize = i - 1;
        if str_eq(entries[k].0.as_str(), key) {
            proof {
                lemma_pairs_view_last(entries@, k as int, key@);
            }
            return Some(k);
        }
        i = k;
    }
    proof {
        lemma_pairs_view_dom(entries@, key@);
    }
    None
}

} // verus!
