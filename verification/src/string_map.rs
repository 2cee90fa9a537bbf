//! A map between strings that keeps its keys in insertion order.

use vstd::prelude::*;

verus! {

/// The map that a list of `(key, value)` entries denotes.
pub open spec fn entries_map(s: Seq<(String, String)>) -> Map<Seq<char>, Seq<char>>
    decreases s.len(),
{
    if s.len() == 0 {
        Map::empty()
    } else {
        entries_map(s.drop_last()).insert(s.last().0@, s.last().1@)
    }
}

/// Whether no key occurs twice among the entries.
pub open spec fn keys_distinct(s: Seq<(String, String)>) -> bool {
    forall|i: int, j: int| 0 <= i < s.len() && 0 <= j < s.len() && i != j ==> s[i].0@ != s[j].0@
}

proof fn lemma_entries_dom(s: Seq<(String, String)>, k: Seq<char>)
    ensures
        entries_map(s).dom().contains(k) <==> exists|i: int| 0 <= i < s.len() && s[i].0@ == k,
    decreases s.len(),
{
    if s.len() > 0 {
        lemma_entries_dom(s.drop_last(), k);
        if entries_map(s).dom().contains(k) && s.last().0@ != k {
            let i = choose|i: int| 0 <= i < s.drop_last().len() && s.drop_last()[i].0@ == k;
            assert(s[i].0@ == k);
        }
        if exists|i: int| 0 <= i < s.len() && s[i].0@ == k {
            let i = choose|i: int| 0 <= i < s.len() && s[i].0@ == k;
            if i < s.len() - 1 {
                assert(s.drop_last()[i].0@ == k);
            }
        }
    }
}

proof fn lemma_entries_finite_len(s: Seq<(String, String)>)
    requires
        keys_distinct(s),
    ensures
        entries_map(s).dom().finite(),
        entries_map(s).dom().len() == s.len(),
    decreases s.len(),
{
    if s.len() > 0 {
        let t = s.drop_last();
        assert(keys_distinct(t));
        lemma_entries_finite_len(t);
        lemma_entries_dom(t, s.last().0@);
        if entries_map(t).dom().contains(s.last().0@) {
            let i = choose|i: int| 0 <= i < t.len() && t[i].0@ == s.last().0@;
            assert(s[i].0@ == s[s.len() - 1].0@);
        }
    }
}

proof fn lemma_entries_update(s: Seq<(String, String)>, i: int, e: (String, String))
    requires
        keys_distinct(s),
        0 <= i < s.len(),
        s[i].0@ == e.0@,
    ensures
        entries_map(s.update(i, e)) == entries_map(s).insert(e.0@, e.1@),
        keys_distinct(s.update(i, e)),
    decreases s.len(),
{
    let u = s.update(i, e);
    if i == s.len() - 1 {
        assert(u.drop_last() == s.drop_last());
        assert(entries_map(u) =~= entries_map(s).insert(e.0@, e.1@));
    } else {
        let t = s.drop_last();
        assert(keys_distinct(t));
        lemma_entries_update(t, i, e);
        assert(u.drop_last() == t.update(i, e));
        assert(s.last().0@ != e.0@) by {
            assert(s[s.len() - 1].0@ != s[i].0@);
        }
        assert(entries_map(u) =~= entries_map(s).insert(e.0@, e.1@));
    }
    assert forall|a: int, b: int| 0 <= a < u.len() && 0 <= b < u.len() && a != b implies u[a].0@ != u[b].0@ by {
        if a != i && b != i {
            assert(s[a].0@ != s[b].0@);
        } else if a == i {
            assert(s[i].0@ != s[b].0@);
        } else {
            assert(s[a].0@ != s[i].0@);
        }
    }
}

/// A map from strings to strings, such as CSS property names to values.
/// Its entries keep the order in which their keys were first set.
#[derive(Debug)]
pub struct StringMap {
    entries: Vec<(String, String)>,
}

impl View for StringMap {
    type V = Map<Seq<char>, Seq<char>>;

    open spec fn view(&self) -> Map<Seq<char>, Seq<char>> {
        entries_map(self.entries())
    }
}

impl StringMap {
    /// The entries, in the order in which their keys were first set.
    pub closed spec fn entries(&self) -> Seq<(String, String)> {
        self.entries@
    }

    #[verifier::type_invariant]
    closed spec fn inv(&self) -> bool {
        keys_distinct(self.entries@)
    }

    /// An empty map.
    pub fn new() -> (r: StringMap)
        ensures
            r@ == Map::<Seq<char>, Seq<char>>::empty(),
            r.entries().len() == 0,
    {
        StringMap { entries: Vec::new() }
    }

    /// The number of properties.
    pub fn len(&self) -> (r: usize)
        ensures
            r == self@.dom().len(),
            self@.dom().finite(),
    {
        proof {
            use_type_invariant(self);
            lemma_entries_finite_len(self.entries@);
        }
        self.entries.len()
    }

    /// Whether the map has no property.
    pub fn is_empty(&self) -> (r: bool)
        ensures
            r == (self@.dom().len() == 0),
            self@.dom().finite(),
    {
        self.len() == 0
    }

    /// Sets `key` to `value`, replacing an earlier value of `key`.
    pub fn insert(&mut self, key: String, value: String)
        ensures
            final(self)@ == old(self)@.insert(key@, value@),
    {
        proof {
            use_type_invariant(&*self);
        }
        let mut i: usize = 0;
        while i < self.entries.len()
            invariant
                self.entries@ == old(self).entries@,
                keys_distinct(self.entries@),
                i <= self.entries.len(),
                forall|j: int| 0 <= j < i ==> self.entries@[j].0@ != key@,
            decreases self.entries.len() - i,
        {
            if self.entries[i].0 == key {
                proof {
                    lemma_entries_update(self.entries@, i as int, (key, value));
                }
                let mut entries: Vec<(String, String)> = Vec::new();
                std::mem::swap(&mut entries, &mut self.entries);
                entries.set(i, (key, value));
                self.entries = entries;
                return;
            }
            i += 1;
        }
        let ghost old_entries = self.entries@;
        proof {
            lemma_entries_dom(old_entries, key@);
        }
        let mut entries: Vec<(String, String)> = Vec::new();
                std::mem::swap(&mut entries, &mut self.entries);
        entries.push((key, value));
        assert(entries@.drop_last() == old_entries);
        assert forall|a: int, b: int| 0 <= a < entries@.len() && 0 <= b < entries@.len() && a != b
            implies entries@[a].0@ != entries@[b].0@ by {
            if a < old_entries.len() && b < old_entries.len() {
                assert(old_entries[a].0@ != old_entries[b].0@);
            }
        }
        self.entries = entries;
    }

    /// The value of `key`, if it is set.
    pub fn get(&self, key: &str) -> (r: Option<&String>)
        ensures
            match r {
                Some(v) => self@.dom().contains(key@) && self@[key@] == v@,
                None => !self@.dom().contains(key@),
            },
    {
        proof {
            use_type_invariant(self);
        }
        let mut i: usize = 0;
        while i < self.entries.len()
            invariant
                keys_distinct(self.entries@),
                i <= self.entries.len(),
                forall|j: int| 0 <= j < i ==> self.entries@[j].0@ != key@,
            decreases self.entries.len() - i,
        {
            if crate::text::str_eq(self.entries[i].0.as_str(), key) {
                proof {
                    lemma_entry_value(self.entries@, i as int);
                }
                return Some(&self.entries[i].1);
            }
            i += 1;
        }
        proof {
            lemma_entries_dom(self.entries@, key@);
        }
        None
    }

    /// The entries as `(key, value)` pairs, in order.
    pub fn pairs(&self) -> (r: &Vec<(String, String)>)
        ensures
            r@ == self.entries(),
            entries_map(r@) == self@,
    {
        &self.entries
    }

    /// Sets each entry of `other`, in order, as `HashMap::extend` does: the
    /// values of `other` win.
    pub fn extend(&mut self, other: StringMap)
        ensures
            final(self)@ == old(self)@.union_prefer_right(other@),
    {
        let entries = other.entries;
        let mut i: usize = 0;
        while i < entries.len()
            invariant
                i <= entries.len(),
                self@ == old(self)@.union_prefer_right(entries_map(entries@.take(i as int))),
            decreases entries.len() - i,
        {
            let (k, v) = (entries[i].0.clone(), entries[i].1.clone());
            self.insert(k, v);
            proof {
                assert(entries@.take(i + 1).drop_last() == entries@.take(i as int));
                assert(self@ =~= old(self)@.union_prefer_right(entries_map(entries@.take(i + 1))));
            }
            i += 1;
        }
        assert(entries@.take(entries.len() as int) == entries@);
    }
}

proof fn lemma_entry_value(s: Seq<(String, String)>, i: int)
    requires
        keys_distinct(s),
        0 <= i < s.len(),
    ensures
        entries_map(s).dom().contains(s[i].0@),
        entries_map(s)[s[i].0@] == s[i].1@,
    decreases s.len(),
{
    if i < s.len() - 1 {
        let t = s.drop_last();
        assert(keys_distinct(t));
        lemma_entry_value(t, i);
        assert(t[i] == s[i]);
        assert(s[s.len() - 1].0@ != s[i].0@);
    }
}

/// A value set in a map is what reading its key gives back, and setting one
/// key leaves the others as they were.
pub proof fn law_read_after_insert(m: Map<Seq<char>, Seq<char>>, k: Seq<char>, v: Seq<char>, other: Seq<char>)
    requires
        other != k,
    ensures
        m.insert(k, v).dom().contains(k),
        m.insert(k, v)[k] == v,
        m.insert(k, v).dom().contains(other) == m.dom().contains(other),
        m.dom().contains(other) ==> m.insert(k, v)[other] == m[other],
{
}

/// Extending a map by another keeps each key of either, with the value of
/// the other map where both have the key.
pub proof fn law_extend_prefers_other(m: Map<Seq<char>, Seq<char>>, o: Map<Seq<char>, Seq<char>>, k: Seq<char>)
    ensures
        m.union_prefer_right(o).dom().contains(k) == (m.dom().contains(k) || o.dom().contains(k)),
        o.dom().contains(k) ==> m.union_prefer_right(o)[k] == o[k],
        m.dom().contains(k) && !o.dom().contains(k) ==> m.union_prefer_right(o)[k] == m[k],
{
}

} // verus!
