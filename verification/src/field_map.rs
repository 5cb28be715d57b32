//! The field map: a unique-key, insertion-ordered mapping from field name to
//! [`Value`], viewed as a mathematical `Map` from character sequences to
//! [`SpecValue`]. Inserting under an existing name replaces its value, so the
//! last write under a name wins.

use vstd::prelude::*;
use crate::text::str_eq;
use crate::value::{SpecValue, Value};

verus! {

/// The mapping described by a sequence of key-value entries, later entries
/// overriding earlier ones.
pub open spec fn entries_map(s: Seq<(String, Value)>) -> Map<Seq<char>, SpecValue>
    decreases s.len(),
{
    if s.len() == 0 {
        Map::empty()
    } else {
        entries_map(s.drop_last()).insert(s.last().0@, s.last().1@)
    }
}

/// The entry keys are pairwise distinct.
pub open spec fn distinct_keys(s: Seq<(String, Value)>) -> bool {
    forall|i: int, j: int| 0 <= i < j < s.len() ==> s[i].0@ != s[j].0@
}

/// A mapping from field name to [`Value`] with unique keys.
pub struct FieldMap {
    /// The entries; [`FieldMap::wf`] says their keys are pairwise distinct.
    pub entries: Vec<(String, Value)>,
}

impl View for FieldMap {
    type V = Map<Seq<char>, SpecValue>;

    open spec fn view(&self) -> Map<Seq<char>, SpecValue> {
        entries_map(self.entries@)
    }
}

/// Every key of the described map is the key of some entry.
proof fn lemma_entries_map_dom(s: Seq<(String, Value)>, k: Seq<char>)
    requires
        entries_map(s).contains_key(k),
    ensures
        exists|i: int| 0 <= i < s.len() && s[i].0@ == k,
    decreases s.len(),
{
    if s.len() > 0 && s.last().0@ != k {
        lemma_entries_map_dom(s.drop_last(), k);
        let i = choose|i: int| 0 <= i < s.drop_last().len() && s.drop_last()[i].0@ == k;
        assert(s[i].0@ == k);
    }
}

/// A key that no entry carries is absent from the described map.
proof fn lemma_entries_map_absent(s: Seq<(String, Value)>, k: Seq<char>)
    requires
        forall|i: int| 0 <= i < s.len() ==> s[i].0@ != k,
    ensures
        !entries_map(s).contains_key(k),
{
    if entries_map(s).contains_key(k) {
        lemma_entries_map_dom(s, k);
    }
}

/// With distinct keys, the described map sends each entry's key to that
/// entry's value.
proof fn lemma_entries_map_index(s: Seq<(String, Value)>, i: int)
    requires
        distinct_keys(s),
        0 <= i < s.len(),
    ensures
        entries_map(s).contains_key(s[i].0@),
        entries_map(s)[s[i].0@] == s[i].1@,
    decreases s.len(),
{
    if i < s.len() - 1 {
        assert(distinct_keys(s.drop_last()));
        lemma_entries_map_index(s.drop_last(), i);
        assert(s.last().0@ != s[i].0@);
    }
}

/// With distinct keys, the described map has exactly one key per entry.
proof fn lemma_entries_map_card(s: Seq<(String, Value)>)
    requires
        distinct_keys(s),
    ensures
        entries_map(s).dom().finite(),
        entries_map(s).dom().len() == s.len(),
    decreases s.len(),
{
    if s.len() > 0 {
        let s2 = s.drop_last();
        assert(distinct_keys(s2));
        lemma_entries_map_card(s2);
        lemma_entries_map_absent(s2, s.last().0@);
    }
}

/// Appending an entry inserts its key-value pair into the described map.
proof fn lemma_entries_map_push(s: Seq<(String, Value)>, e: (String, Value))
    ensures
        entries_map(s.push(e)) == entries_map(s).insert(e.0@, e.1@),
{
    assert(s.push(e).drop_last() =~= s);
    assert(s.push(e).last() == e);
}

/// Removing the one entry that carries key `k` does not change the map once
/// `k` is inserted again.
proof fn lemma_entries_map_remove_insert(s: Seq<(String, Value)>, i: int, v: SpecValue)
    requires
        distinct_keys(s),
        0 <= i < s.len(),
    ensures
        entries_map(s.remove(i)).insert(s[i].0@, v) == entries_map(s).insert(s[i].0@, v),
    decreases s.len(),
{
    let k = s[i].0@;
    if i == s.len() - 1 {
        assert(s.remove(i) =~= s.drop_last());
        assert(entries_map(s).insert(k, v) =~= entries_map(s.drop_last()).insert(k, v));
    } else {
        let s2 = s.drop_last();
        let last = s.last();
        assert(distinct_keys(s2));
        assert(s.remove(i).drop_last() =~= s2.remove(i));
        assert(s.remove(i).last() == last);
        lemma_entries_map_remove_insert(s2, i, v);
        assert(last.0@ != k);
        assert(entries_map(s2.remove(i)).insert(last.0@, last.1@).insert(k, v) =~= entries_map(
            s2.remove(i),
        ).insert(k, v).insert(last.0@, last.1@));
        assert(entries_map(s2).insert(k, v).insert(last.0@, last.1@) =~= entries_map(s2).insert(
            last.0@,
            last.1@,
        ).insert(k, v));
    }
}

impl FieldMap {
    /// The keys are pairwise distinct, so each name maps to one value.
    pub open spec fn wf(&self) -> bool {
        distinct_keys(self.entries@)
    }

    /// An empty field map.
    pub fn new() -> (r: FieldMap)
        ensures
            r.wf(),
            r@ == Map::<Seq<char>, SpecValue>::empty(),
    {
        FieldMap { entries: Vec::new() }
    }

    /// How many fields the map holds: one entry per key.
    pub fn len(&self) -> (n: usize)
        requires
            self.wf(),
        ensures
            n == self.entries@.len(),
            n == self@.dom().len(),
    {
        proof {
            lemma_entries_map_card(self.entries@);
        }
        self.entries.len()
    }

    /// Stores `value` under `name`, replacing any value previously stored
    /// under that exact name.
    pub fn insert(&mut self, name: String, value: Value)
        requires
            old(self).wf(),
        ensures
            final(self).wf(),
            final(self)@ == old(self)@.insert(name@, value@),
    {
        let ghost s0 = self.entries@;
        let mut i: usize = 0;
        let n = self.entries.len();
        while i < n
            invariant
                0 <= i <= n,
                n == self.entries@.len(),
                self.entries@ == s0,
                s0 == old(self).entries@,
                distinct_keys(s0),
                forall|j: int| 0 <= j < i ==> s0[j].0@ != name@,
            decreases n - i,
        {
            if str_eq(self.entries[i].0.as_str(), name.as_str()) {
                let _ = self.entries.remove(i);
                proof {
                    assert(distinct_keys(s0.remove(i as int)));
                    assert(forall|j: int|
                        0 <= j < s0.remove(i as int).len() ==> s0.remove(i as int)[j].0@
                            != name@);
                }
                self.entries.push((name, value));
                proof {
                    let e = self.entries@.last();
                    assert(self.entries@ =~= s0.remove(i as int).push(e));
                    assert(e.0@ == name@ && e.1@ == value@);
                    lemma_entries_map_push(s0.remove(i as int), e);
                    lemma_entries_map_remove_insert(s0, i as int, value@);
                    assert(s0[i as int].0@ == name@);
                    assert(entries_map(self.entries@) == entries_map(s0).insert(name@, value@));
                    assert(distinct_keys(self.entries@));
                }
                return ;
            }
            i += 1;
        }
        self.entries.push((name, value));
        proof {
            lemma_entries_map_push(s0, self.entries@.last());
            lemma_entries_map_absent(s0, name@);
            assert(distinct_keys(self.entries@));
        }
    }

    /// Looks the value stored under `name` up.
    pub fn get(&self, name: &str) -> (r: Option<&Value>)
        requires
            self.wf(),
        ensures
            match r {
                Some(v) => self@.contains_key(name@) && v@ == self@[name@],
                None => !self@.contains_key(name@),
            },
    {
        let n = self.entries.len();
        let mut i: usize = 0;
        while i < n
            invariant
                0 <= i <= n,
                n == self.entries@.len(),
                self.wf(),
                forall|j: int| 0 <= j < i ==> self.entries@[j].0@ != name@,
            decreases n - i,
        {
            if str_eq(self.entries[i].0.as_str(), name) {
                proof {
                    lemma_entries_map_index(self.entries@, i as int);
                }
                return Some(&self.entries[i].1);
            }
            i += 1;
        }
        proof {
            lemma_entries_map_absent(self.entries@, name@);
        }
        None
    }
}

} // verus!
