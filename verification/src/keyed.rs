//! A map from strings to values that keeps its keys in insertion order.

use vstd::prelude::*;

verus! {

/// The map that a list of `(key, value)` entries denotes.
pub open spec fn keyed_map<V>(s: Seq<(String, V)>) -> Map<Seq<char>, V>
    decreases s.len(),
{
    if s.len() == 0 {
        Map::empty()
    } else {
        keyed_map(s.drop_last()).insert(s.last().0@, s.last().1)
    }
}

/// Whether no key occurs twice among the entries.
pub open spec fn keys_unique<V>(s: Seq<(String, V)>) -> bool {
    forall|i: int, j: int| 0 <= i < s.len() && 0 <= j < s.len() && i != j ==> s[i].0@ != s[j].0@
}

proof fn lemma_entries_dom<V>(s: Seq<(String, V)>, k: Seq<char>)
    ensures
        keyed_map(s).dom().contains(k) <==> exists|i: int| 0 <= i < s.len() && s[i].0@ == k,
    decreases s.len(),
{
    if s.len() > 0 {
        lemma_entries_dom(s.drop_last(), k);
        if keyed_map(s).dom().contains(k) && s.last().0@ != k {
            let i = choose|i: int| 0 <= i < s.drop_last().len() && s.drop_last()[i].0@ == k;
            assert(s[i].0@ == k);
        }
        if exists|i: int| 0 <= i < s.len() && s[i].0@ == k {
            let i = choose|i: int| 0 <= i < s.len() && s[i].0@ == k;
            if i < s.len() - 1 {
                assert(s.drop_last()[i].0@ == k);
            }
        }
    }
}

proof fn lemma_entries_finite_len<V>(s: Seq<(String, V)>)
    requires
        keys_unique(s),
    ensures
        keyed_map(s).dom().finite(),
        keyed_map(s).dom().len() == s.len(),
    decreases s.len(),
{
    if s.len() > 0 {
        let t = s.drop_last();
        assert(keys_unique(t));
        lemma_entries_finite_len(t);
        lemma_entries_dom(t, s.last().0@);
        if keyed_map(t).dom().contains(s.last().0@) {
            let i = choose|i: int| 0 <= i < t.len() && t[i].0@ == s.last().0@;
            assert(s[i].0@ == s[s.len() - 1].0@);
        }
    }
}

proof fn lemma_entries_update<V>(s: Seq<(String, V)>, i: int, e: (String, V))
    requires
        keys_unique(s),
        0 <= i < s.len(),
        s[i].0@ == e.0@,
    ensures
        keyed_map(s.update(i, e)) == keyed_map(s).insert(e.0@, e.1),
        keys_unique(s.update(i, e)),
    decreases s.len(),
{
    let u = s.update(i, e);
    if i == s.len() - 1 {
        assert(u.drop_last() == s.drop_last());
        assert(keyed_map(u) =~= keyed_map(s).insert(e.0@, e.1));
    } else {
        let t = s.drop_last();
        assert(keys_unique(t));
        lemma_entries_update(t, i, e);
        assert(u.drop_last() == t.update(i, e));
        assert(s.last().0@ != e.0@) by {
            assert(s[s.len() - 1].0@ != s[i].0@);
        }
        assert(keyed_map(u) =~= keyed_map(s).insert(e.0@, e.1));
    }
    assert forall|a: int, b: int| 0 <= a < u.len() && 0 <= b < u.len() && a != b implies u[a].0@ != u[b].0@ by {
        if a != i && b != i {
            assert(s[a].0@ != s[b].0@);
        } else if a == i {
            assert(s[i].0@ != s[b].0@);
        } else {
            assert(s[a].0@ != s[i].0@);
        }
    }
}

proof fn lemma_entries_remove<V>(s: Seq<(String, V)>, i: int)
    requires
        keys_unique(s),
        0 <= i < s.len(),
    ensures
        keyed_map(s.remove(i)) == keyed_map(s).remove(s[i].0@),
        keys_unique(s.remove(i)),
    decreases s.len(),
{
    let k = s[i].0@;
    let u = s.remove(i);
    assert forall|a: int, b: int| 0 <= a < u.len() && 0 <= b < u.len() && a != b implies u[a].0@ != u[b].0@ by {
        let a2 = if a < i { a } else { a + 1 };
        let b2 = if b < i { b } else { b + 1 };
        assert(u[a] == s[a2]);
        assert(u[b] == s[b2]);
    }
    let t = s.drop_last();
    assert(keys_unique(t));
    if i == s.len() - 1 {
        assert(u =~= t);
        lemma_entries_dom(t, k);
        if keyed_map(t).dom().contains(k) {
            let j = choose|j: int| 0 <= j < t.len() && t[j].0@ == k;
            assert(s[j].0@ == s[i].0@);
        }
        assert(keyed_map(u) =~= keyed_map(s).remove(k));
    } else {
        lemma_entries_remove(t, i);
        assert(u.drop_last() =~= t.remove(i));
        assert(u.last() == s.last());
        assert(s.last().0@ != k) by {
            assert(s[s.len() - 1].0@ != s[i].0@);
        }
        assert(t[i] == s[i]);
        assert(keyed_map(u) =~= keyed_map(s).remove(k));
    }
}

/// A map from strings to values, such as element ids to what belongs to
/// them. Its entries keep the order in which their keys were first set.
#[derive(Debug)]
pub struct KeyedMap<V> {
    entries: Vec<(String, V)>,
}

impl<V> View for KeyedMap<V> {
    type V = Map<Seq<char>, V>;

    open spec fn view(&self) -> Map<Seq<char>, V> {
        keyed_map(self.entries())
    }
}

impl<V> KeyedMap<V> {
    /// The entries, in the order in which their keys were first set.
    pub closed spec fn entries(&self) -> Seq<(String, V)> {
        self.entries@
    }

    #[verifier::type_invariant]
    closed spec fn inv(&self) -> bool {
        keys_unique(self.entries@)
    }

    /// An empty map.
    pub fn new() -> (r: KeyedMap<V>)
        ensures
            r@ == Map::<Seq<char>, V>::empty(),
            r.entries().len() == 0,
    {
        KeyedMap { entries: Vec::new() }
    }

    /// The number of keys.
    pub fn len(&self) -> (r: usize)
        ensures
            r == self@.dom().len(),
            r == self.entries().len(),
            self@.dom().finite(),
    {
        proof {
            use_type_invariant(self);
            lemma_entries_finite_len(self.entries@);
        }
        self.entries.len()
    }

    /// Whether the map has no key.
    pub fn is_empty(&self) -> (r: bool)
        ensures
            r == (self@.dom().len() == 0),
    {
        self.len() == 0
    }

    /// The position of `key` among the entries.
    fn position(&self, key: &str) -> (r: Option<usize>)
        ensures
            match r {
                Some(i) => i < self.entries@.len() && self.entries@[i as int].0@ == key@,
                None => !self@.dom().contains(key@),
            },
    {
        proof {
            use_type_invariant(self);
        }
        let mut i: usize = 0;
        while i < self.entries.len()
            invariant
                keys_unique(self.entries@),
                i <= self.entries.len(),
                forall|j: int| 0 <= j < i ==> self.entries@[j].0@ != key@,
            decreases self.entries.len() - i,
        {
            if crate::text::str_eq(self.entries[i].0.as_str(), key) {
                return Some(i);
            }
            i += 1;
        }
        proof {
            lemma_entries_dom(self.entries@, key@);
        }
        None
    }

    /// Sets `key` to `value`, replacing an earlier value of `key`.
    pub fn insert(&mut self, key: String, value: V)
        ensures
            final(self)@ == old(self)@.insert(key@, value),
    {
        proof {
            use_type_invariant(&*self);
        }
        match self.position(key.as_str()) {
            Some(i) => {
                proof {
                    lemma_entries_update(self.entries@, i as int, (key, value));
                }
                let mut entries: Vec<(String, V)> = Vec::new();
                std::mem::swap(&mut entries, &mut self.entries);
                entries.set(i, (key, value));
                self.entries = entries;
            },
            None => {
                let ghost old_entries = self.entries@;
                proof {
                    lemma_entries_dom(old_entries, key@);
                }
                let mut entries: Vec<(String, V)> = Vec::new();
                std::mem::swap(&mut entries, &mut self.entries);
                entries.push((key, value));
                assert(entries@.drop_last() == old_entries);
                assert forall|a: int, b: int| 0 <= a < entries@.len() && 0 <= b < entries@.len() && a != b
                    implies entries@[a].0@ != entries@[b].0@ by {
                    if a < old_entries.len() && b < old_entries.len() {
                        assert(old_entries[a].0@ != old_entries[b].0@);
                    }
                }
                self.entries = entries;
            },
        }
    }

    /// The value of `key`, if it is set.
    pub fn get(&self, key: &str) -> (r: Option<&V>)
        ensures
            match r {
                Some(v) => self@.dom().contains(key@) && self@[key@] == *v,
                None => !self@.dom().contains(key@),
            },
    {
        proof {
            use_type_invariant(self);
        }
        match self.position(key) {
            Some(i) => {
                proof {
                    lemma_entry_value(self.entries@, i as int);
                }
                Some(&self.entries[i].1)
            },
            None => None,
        }
    }

    /// Puts `value` in place of the value of `key` and gives back the value
    /// it replaces; where `key` is not set, nothing changes.
    pub fn replace(&mut self, key: &str, value: V) -> (r: Option<V>)
        ensures
            match r {
                Some(v) => old(self)@.dom().contains(key@) && old(self)@[key@] == v
                    && final(self)@ == old(self)@.insert(key@, value),
                None => !old(self)@.dom().contains(key@) && final(self)@ == old(self)@,
            },
    {
        proof {
            use_type_invariant(&*self);
        }
        match self.position(key) {
            Some(i) => {
                proof {
                    lemma_entry_value(self.entries@, i as int);
                }
                let mut entries: Vec<(String, V)> = Vec::new();
                std::mem::swap(&mut entries, &mut self.entries);
                let ghost e0 = entries@;
                let (k, old_value) = entries.remove(i);
                proof {
                    lemma_entries_update(e0, i as int, (k, value));
                }
                entries.insert(i, (k, value));
                assert(entries@ =~= e0.update(i as int, (k, value)));
                self.entries = entries;
                Some(old_value)
            },
            None => None,
        }
    }

    /// Removes `key` and gives back its value, where it is set.
    pub fn remove(&mut self, key: &str) -> (r: Option<V>)
        ensures
            match r {
                Some(v) => old(self)@.dom().contains(key@) && old(self)@[key@] == v,
                None => !old(self)@.dom().contains(key@),
            },
            final(self)@ == old(self)@.remove(key@),
    {
        proof {
            use_type_invariant(&*self);
        }
        match self.position(key) {
            Some(i) => {
                proof {
                    lemma_entry_value(self.entries@, i as int);
                    lemma_entries_remove(self.entries@, i as int);
                }
                let mut entries: Vec<(String, V)> = Vec::new();
                std::mem::swap(&mut entries, &mut self.entries);
                let (_, value) = entries.remove(i);
                self.entries = entries;
                Some(value)
            },
            None => {
                assert(old(self)@.remove(key@) =~= old(self)@);
                None
            },
        }
    }

    /// The entries as `(key, value)` pairs, in order.
    pub fn pairs(&self) -> (r: &Vec<(String, V)>)
        ensures
            r@ == self.entries(),
            keyed_map(r@) == self@,
    {
        &self.entries
    }
}

proof fn lemma_entry_value<V>(s: Seq<(String, V)>, i: int)
    requires
        keys_unique(s),
        0 <= i < s.len(),
    ensures
        keyed_map(s).dom().contains(s[i].0@),
        keyed_map(s)[s[i].0@] == s[i].1,
    decreases s.len(),
{
    if i < s.len() - 1 {
        let t = s.drop_last();
        assert(keys_unique(t));
        lemma_entry_value(t, i);
        assert(t[i] == s[i]);
        assert(s[s.len() - 1].0@ != s[i].0@);
    }
}

} // verus!
