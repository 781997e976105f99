//! A small string-keyed map with insertion-ordered storage and unique keys,
//! used for normalized-event fields and per-category firewall overrides.

use vstd::prelude::*;

use crate::text::str_eq;

verus! {

/// The mathematical map a list of entries denotes; a later entry for the
/// same key wins.
pub open spec fn entries_as_map(s: Seq<(String, String)>) -> Map<Seq<char>, Seq<char>>
    decreases s.len(),
{
    if s.len() == 0 {
        Map::empty()
    } else {
        entries_as_map(s.drop_last()).insert(s.last().0@, s.last().1@)
    }
}

/// An ordered mapping from field names to field values, with unique keys.
#[derive(Debug, Clone)]
pub struct TextMap {
    entries: Vec<(String, String)>,
}

impl TextMap {
    /// The mapping as a mathematical map.
    pub closed spec fn view(&self) -> Map<Seq<char>, Seq<char>> {
        entries_as_map(self.entries@)
    }

    /// No two entries share a key.
    pub closed spec fn well_formed(&self) -> bool {
        forall|i: int, j: int|
            0 <= i < j < self.entries@.len() ==> self.entries@[i].0@ != self.entries@[j].0@
    }

    /// An empty map.
    pub fn new() -> (r: Self)
        ensures
            r.well_formed(),
            r@ == Map::<Seq<char>, Seq<char>>::empty(),
    {
        TextMap { entries: Vec::new() }
    }

    /// Number of entries.
    pub fn len(&self) -> (r: usize)
        requires
            self.well_formed(),
        ensures
            r == self@.dom().len(),
    {
        proof {
            lemma_entries_len(self.entries@);
        }
        self.entries.len()
    }

    /// Position of the entry holding `key`, if any.
    fn position_of(&self, key: &str) -> (r: Option<usize>)
        ensures
            match r {
                Some(i) => i < self.entries@.len() && self.entries@[i as int].0@ == key@,
                None => forall|i: int| 0 <= i < self.entries@.len() ==> self.entries@[i].0@ != key@,
            },
    {
        let mut i: usize = 0;
        while i < self.entries.len()
            invariant
                i <= self.entries@.len(),
                forall|k: int| 0 <= k < i ==> self.entries@[k].0@ != key@,
            decreases self.entries@.len() - i,
        {
            if str_eq(self.entries[i].0.as_str(), key) {
                return Some(i);
            }
            i += 1;
        }
        None
    }

    /// Insert or replace the value under `key`.
    pub fn insert(&mut self, key: String, value: String)
        requires
            old(self).well_formed(),
        ensures
            final(self).well_formed(),
            final(self)@ == old(self)@.insert(key@, value@),
    {
        let pos = self.position_of(key.as_str());
        match pos {
            Some(i) => {
                self.entries[i] = (key, value);
                proof {
                    lemma_as_map_update(old(self).entries@, self.entries@, i as int);
                }
            },
            None => {
                self.entries.push((key, value));
                proof {
                    assert(self.entries@.drop_last() =~= old(self).entries@);
                }
            },
        }
    }

    /// The value stored under `key`, if any.
    pub fn get(&self, key: &str) -> (r: Option<&String>)
        requires
            self.well_formed(),
        ensures
            match r {
                Some(v) => self@.contains_key(key@) && v@ == self@[key@],
                None => !self@.contains_key(key@),
            },
    {
        proof {
            lemma_as_map_membership(self.entries@, key@);
        }
        let pos = self.position_of(key);
        match pos {
            Some(i) => {
                proof {
                    lemma_as_map_unique_value(self.entries@, i as int);
                }
                Some(&self.entries[i].1)
            },
            None => None,
        }
    }
}

/// With unique keys, the number of entries is the size of the map's domain.
proof fn lemma_entries_len(s: Seq<(String, String)>)
    requires
        forall|i: int, j: int| 0 <= i < j < s.len() ==> s[i].0@ != s[j].0@,
    ensures
        entries_as_map(s).dom().finite(),
        entries_as_map(s).dom().len() == s.len(),
    decreases s.len(),
{
    if s.len() > 0 {
        lemma_entries_len(s.drop_last());
        lemma_as_map_membership(s.drop_last(), s.last().0@);
    }
}

/// A key occurs in the map exactly when some entry holds it.
proof fn lemma_as_map_membership(s: Seq<(String, String)>, key: Seq<char>)
    ensures
        entries_as_map(s).contains_key(key) <==> exists|i: int| 0 <= i < s.len() && s[i].0@ == key,
    decreases s.len(),
{
    if s.len() > 0 {
        lemma_as_map_membership(s.drop_last(), key);
        if s.last().0@ == key {
            assert(s[s.len() - 1].0@ == key);
        } else {
            if entries_as_map(s).contains_key(key) {
                let i = choose|i: int| 0 <= i < s.len() - 1 && s.drop_last()[i].0@ == key;
                assert(s[i].0@ == key);
            }
            if exists|i: int| 0 <= i < s.len() && s[i].0@ == key {
                let i = choose|i: int| 0 <= i < s.len() && s[i].0@ == key;
                assert(i < s.len() - 1);
                assert(s.drop_last()[i].0@ == key);
            }
        }
    }
}

/// With unique keys, the entry at `i` gives the value the map holds for
/// its key.
proof fn lemma_as_map_unique_value(s: Seq<(String, String)>, i: int)
    requires
        forall|p: int, q: int| 0 <= p < q < s.len() ==> s[p].0@ != s[q].0@,
        0 <= i < s.len(),
    ensures
        entries_as_map(s).contains_key(s[i].0@),
        entries_as_map(s)[s[i].0@] == s[i].1@,
    decreases s.len(),
{
    if i < s.len() - 1 {
        lemma_as_map_unique_value(s.drop_last(), i);
        assert(s.last().0@ != s[i].0@);
    }
}

/// Replacing the entry at `i` by one with the same key denotes inserting
/// the new value, provided keys are unique.
proof fn lemma_as_map_update(s_old: Seq<(String, String)>, s_new: Seq<(String, String)>, i: int)
    requires
        forall|p: int, q: int| 0 <= p < q < s_old.len() ==> s_old[p].0@ != s_old[q].0@,
        0 <= i < s_old.len(),
        s_new =~= s_old.update(i, s_new[i]),
        s_new[i].0@ == s_old[i].0@,
    ensures
        entries_as_map(s_new) == entries_as_map(s_old).insert(s_new[i].0@, s_new[i].1@),
    decreases s_old.len(),
{
    let key = s_new[i].0@;
    let value = s_new[i].1@;
    if i == s_old.len() - 1 {
        assert(s_new.drop_last() =~= s_old.drop_last());
        assert(s_new.last() == s_new[i]);
        assert(entries_as_map(s_old.drop_last()).insert(key, s_old[i].1@).insert(key, value)
            =~= entries_as_map(s_old.drop_last()).insert(key, value));
    } else {
        assert(s_new.drop_last() =~= s_old.drop_last().update(i, s_new[i]));
        lemma_as_map_update(s_old.drop_last(), s_new.drop_last(), i);
        assert(s_new.last() == s_old.last());
        let lk = s_old.last().0@;
        let lv = s_old.last().1@;
        assert(lk != key);
        assert(entries_as_map(s_old.drop_last()).insert(key, value).insert(lk, lv)
            =~= entries_as_map(s_old.drop_last()).insert(lk, lv).insert(key, value));
    }
}

} // verus!
