//! An association table keyed by strings, with a `Map` view.
//!
//! Backs the session store and the robots cache: a vector of key/value pairs
//! whose keys are pairwise distinct, seen in contracts as a finite map from
//! key characters to the value's view.

use vstd::prelude::*;

use crate::textutil::str_eq;

verus! {

/// The finite map described by a sequence of key/value pairs, later entries
/// winning over earlier ones.
pub open spec fn map_of_entries<V: View>(s: Seq<(String, V)>) -> Map<Seq<char>, V::V>
    decreases s.len(),
{
    if s.len() == 0 {
        Map::empty()
    } else {
        map_of_entries(s.drop_last()).insert(s.last().0@, s.last().1@)
    }
}

/// Keys of the entry sequence are pairwise distinct.
pub open spec fn distinct_keys<V>(s: Seq<(String, V)>) -> bool {
    forall|i: int, j: int| 0 <= i < j < s.len() ==> s[i].0@ != s[j].0@
}

proof fn lemma_map_of_contains<V: View>(s: Seq<(String, V)>, k: Seq<char>)
    ensures
        map_of_entries(s).contains_key(k) <==> (exists|i: int|
            0 <= i < s.len() && s[i].0@ == k),
    decreases s.len(),
{
    if s.len() > 0 {
        lemma_map_of_contains(s.drop_last(), k);
        if map_of_entries(s).contains_key(k) {
            if s.last().0@ != k {
                let i = choose|i: int| 0 <= i < s.drop_last().len() && s.drop_last()[i].0@ == k;
                assert(s[i].0@ == k);
            }
        } else {
            assert(forall|i: int| 0 <= i < s.len() - 1 ==> s.drop_last()[i] == s[i]);
        }
    }
}

proof fn lemma_map_of_index<V: View>(s: Seq<(String, V)>, i: int)
    requires
        distinct_keys(s),
        0 <= i < s.len(),
    ensures
        map_of_entries(s).contains_key(s[i].0@),
        map_of_entries(s)[s[i].0@] == s[i].1@,
    decreases s.len(),
{
    lemma_map_of_contains(s, s[i].0@);
    if i < s.len() - 1 {
        assert(forall|x: int, y: int|
            0 <= x < y < s.drop_last().len() ==> s.drop_last()[x].0@ != s.drop_last()[y].0@);
        lemma_map_of_index(s.drop_last(), i);
        assert(s[i].0@ != s.last().0@);
    }
}

proof fn lemma_map_of_dom_len<V: View>(s: Seq<(String, V)>)
    requires
        distinct_keys(s),
    ensures
        map_of_entries(s).dom().finite(),
        map_of_entries(s).dom().len() == s.len(),
    decreases s.len(),
{
    if s.len() > 0 {
        let d = s.drop_last();
        assert(forall|x: int, y: int| 0 <= x < y < d.len() ==> d[x].0@ != d[y].0@);
        lemma_map_of_dom_len(d);
        lemma_map_of_contains(d, s.last().0@);
        assert(forall|i: int| 0 <= i < d.len() ==> d[i] == s[i]);
        assert(!map_of_entries(d).contains_key(s.last().0@));
        assert(map_of_entries(s).dom() =~= map_of_entries(d).dom().insert(s.last().0@));
    }
}

/// A vector of key/value pairs with pairwise-distinct keys.
pub struct AssocTable<V> {
    entries: Vec<(String, V)>,
}

impl<V: View> AssocTable<V> {
    /// The table's contents as a finite map.
    pub closed spec fn view(&self) -> Map<Seq<char>, V::V> {
        map_of_entries(self.entries@)
    }

    /// Well-formedness: no key occurs twice.
    pub closed spec fn wf(&self) -> bool {
        distinct_keys(self.entries@)
    }

    /// An empty table.
    pub fn new() -> (r: Self)
        ensures
            r.wf(),
            r@ == Map::<Seq<char>, V::V>::empty(),
    {
        Self { entries: Vec::new() }
    }

    fn position_of(&self, key: &str) -> (r: Option<usize>)
        ensures
            match r {
                Some(i) => i < self.entries@.len() && self.entries@[i as int].0@ == key@,
                None => forall|i: int| 0 <= i < self.entries@.len() ==> self.entries@[i].0@ != key@,
            },
    {
        let mut i: usize = 0;
        while i < self.entries.len()
            invariant
                i <= self.entries@.len(),
                forall|j: int| 0 <= j < i ==> self.entries@[j].0@ != key@,
            decreases self.entries@.len() - i,
        {
            if str_eq(self.entries[i].0.as_str(), key) {
                return Some(i);
            }
            i += 1;
        }
        None
    }

    /// Look up a key; `None` exactly when the key is absent.
    pub fn get(&self, key: &str) -> (r: Option<&V>)
        requires
            self.wf(),
        ensures
            r.is_some() == self@.contains_key(key@),
            match r {
                Some(v) => self@.contains_key(key@) && v@ == self@[key@],
                None => !self@.contains_key(key@),
            },
    {
        proof {
            lemma_map_of_contains(self.entries@, key@);
        }
        match self.position_of(key) {
            Some(i) => {
                proof {
                    lemma_map_of_index(self.entries@, i as int);
                }
                Some(&self.entries[i].1)
            },
            None => None,
        }
    }

    /// Whether the key is present.
    pub fn contains(&self, key: &str) -> (r: bool)
        requires
            self.wf(),
        ensures
            r == self@.contains_key(key@),
    {
        self.get(key).is_some()
    }

    /// Insert or overwrite the value under `key`.
    pub fn insert(&mut self, key: String, value: V)
        requires
            old(self).wf(),
        ensures
            final(self).wf(),
            final(self)@ == old(self)@.insert(key@, value@),
    {
        proof {
            lemma_map_of_contains(self.entries@, key@);
        }
        match self.position_of(key.as_str()) {
            Some(i) => {
                let ghost pre = self.entries@;
                self.entries.remove(i);
                self.entries.insert(i, (key, value));
                proof {
                    assert(self.entries@ =~= pre.update(i as int, self.entries@[i as int]));
                    Self::lemma_map_of_update(pre, i as int, self.entries@[i as int]);
                }
            },
            None => {
                let ghost pre = self.entries@;
                self.entries.push((key, value));
                proof {
                    assert(self.entries@.drop_last() =~= pre);
                }
            },
        }
    }

    proof fn lemma_map_of_update(s: Seq<(String, V)>, i: int, x: (String, V))
        requires
            distinct_keys(s),
            0 <= i < s.len(),
            x.0@ == s[i].0@,
        ensures
            distinct_keys(s.update(i, x)),
            map_of_entries(s.update(i, x)) == map_of_entries(s).insert(x.0@, x.1@),
        decreases s.len(),
    {
        let u = s.update(i, x);
        assert(forall|a: int| 0 <= a < s.len() ==> u[a].0@ == s[a].0@);
        if i == s.len() - 1 {
            assert(u.drop_last() =~= s.drop_last());
            assert(map_of_entries(u) =~= map_of_entries(s).insert(x.0@, x.1@));
        } else {
            let d = s.drop_last();
            assert(forall|a: int, b: int| 0 <= a < b < d.len() ==> d[a].0@ != d[b].0@);
            Self::lemma_map_of_update(d, i, x);
            assert(u.drop_last() =~= d.update(i, x));
            assert(u.last() == s.last());
            assert(s[i].0@ != s.last().0@);
            assert(map_of_entries(u) =~= map_of_entries(s).insert(x.0@, x.1@));
        }
    }

    /// The number of entries, which equals the size of the map's domain.
    pub fn len(&self) -> (r: usize)
        requires
            self.wf(),
        ensures
            r == self@.dom().len(),
    {
        proof {
            lemma_map_of_dom_len(self.entries@);
        }
        self.entries.len()
    }
}

} // verus!
