//! A map from names to values that keeps one entry per name, in the order the
//! names were first given.
use vstd::prelude::*;

use crate::text::str_eq;

verus! {

/// The map that a list of `(name, value)` entries describes; a later entry
/// for a name replaces an earlier one.
pub open spec fn entries_map<V>(s: Seq<(String, V)>) -> Map<Seq<char>, V>
    decreases s.len(),
{
    if s.len() == 0 {
        Map::empty()
    } else {
        entries_map(s.drop_last()).insert(s.last().0@, s.last().1)
    }
}

/// No two entries of `s` have the same name.
pub open spec fn keys_unique<V>(s: Seq<(String, V)>) -> bool {
    forall|i: int, j: int| 0 <= i < j < s.len() ==> (#[trigger] s[i]).0@ != (#[trigger] s[j]).0@
}

/// A name is a key of `entries_map(s)` exactly where some entry has it.
pub proof fn lemma_entries_dom<V>(s: Seq<(String, V)>, k: Seq<char>)
    ensures
        entries_map(s).contains_key(k) <==> exists|i: int| 0 <= i < s.len() && (#[trigger] s[i]).0@ == k,
    decreases s.len(),
{
    if s.len() > 0 {
        lemma_entries_dom(s.drop_last(), k);
        if exists|i: int| 0 <= i < s.len() && (#[trigger] s[i]).0@ == k {
            let i = choose|i: int| 0 <= i < s.len() && (#[trigger] s[i]).0@ == k;
            if i < s.len() - 1 {
                assert(s.drop_last()[i] == s[i]);
            }
        }
        if exists|i: int| 0 <= i < s.drop_last().len() && (#[trigger] s.drop_last()[i]).0@ == k {
            let i = choose|i: int| 0 <= i < s.drop_last().len() && (#[trigger] s.drop_last()[i]).0@ == k;
            assert(s[i] == s.drop_last()[i]);
        }
    }
}

/// With unique names, the map has one key per entry.
pub proof fn lemma_entries_len<V>(s: Seq<(String, V)>)
    requires
        keys_unique(s),
    ensures
        entries_map(s).dom().len() == s.len(),
        entries_map(s).dom().finite(),
    decreases s.len(),
{
    if s.len() > 0 {
        let p = s.drop_last();
        assert(keys_unique(p)) by {
            assert forall|i: int, j: int| 0 <= i < j < p.len() implies (#[trigger] p[i]).0@ != (#[trigger] p[j]).0@ by {
                assert(p[i] == s[i] && p[j] == s[j]);
            }
        }
        lemma_entries_len(p);
        lemma_entries_dom(p, s.last().0@);
        if entries_map(p).contains_key(s.last().0@) {
            let i = choose|i: int| 0 <= i < p.len() && (#[trigger] p[i]).0@ == s.last().0@;
            assert(s[i] == p[i]);
            assert(s[s.len() - 1] == s.last());
        }
    }
}

/// Replacing the value of an entry whose name is unique sets that name.
pub proof fn lemma_entries_update<V>(s: Seq<(String, V)>, i: int, x: (String, V))
    requires
        keys_unique(s),
        0 <= i < s.len(),
        s[i].0@ == x.0@,
    ensures
        entries_map(s.update(i, x)) == entries_map(s).insert(x.0@, x.1),
    decreases s.len(),
{
    let t = s.update(i, x);
    if i == s.len() - 1 {
        assert(t.drop_last() =~= s.drop_last());
        assert(entries_map(t) =~= entries_map(s).insert(x.0@, x.1));
    } else {
        let p = s.drop_last();
        assert(keys_unique(p)) by {
            assert forall|a: int, b: int| 0 <= a < b < p.len() implies (#[trigger] p[a]).0@ != (#[trigger] p[b]).0@ by {
                assert(p[a] == s[a] && p[b] == s[b]);
            }
        }
        assert(t.drop_last() =~= p.update(i, x));
        lemma_entries_update(p, i, x);
        assert(s[i].0@ != s[s.len() - 1].0@);
        assert(entries_map(t) =~= entries_map(s).insert(x.0@, x.1));
    }
}

fn position_in<V>(entries: &Vec<(String, V)>, name: &str) -> (r: Option<usize>)
    ensures
        r matches Some(i) ==> i < entries@.len() && entries@[i as int].0@ == name@,
        r is None ==> forall|i: int| 0 <= i < entries@.len() ==> (#[trigger] entries@[i]).0@ != name@,
{
    let n = entries.len();
    let mut i: usize = 0;
    while i < n
        invariant
            n == entries@.len(),
            i <= n,
            forall|j: int| 0 <= j < i ==> (#[trigger] entries@[j]).0@ != name@,
        decreases n - i,
    {
        if str_eq(entries[i].0.as_str(), name) {
            return Some(i);
        }
        i += 1;
    }
    None
}

/// Values of type `V` by name.
#[derive(Debug)]
pub struct Keyed<V> {
    entries: Vec<(String, V)>,
}

impl<V> View for Keyed<V> {
    type V = Map<Seq<char>, V>;

    closed spec fn view(&self) -> Map<Seq<char>, V> {
        entries_map(self.entries@)
    }
}

impl<V> Keyed<V> {
    #[verifier::type_invariant]
    closed spec fn unique(&self) -> bool {
        keys_unique(self.entries@)
    }

    /// No entry.
    pub fn new() -> (r: Keyed<V>)
        ensures
            r@ == Map::<Seq<char>, V>::empty(),
    {
        Keyed { entries: Vec::new() }
    }

    /// Sets the value under `name`, replacing any value held there.
    pub fn insert(&mut self, name: String, value: V)
        ensures
            final(self)@ == old(self)@.insert(name@, value),
    {
        proof {
            use_type_invariant(&*self);
        }
        let mut entries: Vec<(String, V)> = Vec::new();
        std::mem::swap(&mut entries, &mut self.entries);
        let ghost before = entries@;
        match position_in(&entries, name.as_str()) {
            Some(i) => {
                let ghost x = (name, value);
                proof {
                    lemma_entries_update(before, i as int, x);
                }
                entries.set(i, (name, value));
                assert(keys_unique(entries@)) by {
                    assert forall|a: int, b: int| 0 <= a < b < entries@.len() implies (#[trigger] entries@[a]).0@ != (#[trigger] entries@[b]).0@ by {
                        if a != i && b != i {
                            assert(entries@[a] == before[a] && entries@[b] == before[b]);
                        } else if a == i {
                            assert(entries@[b] == before[b]);
                        } else {
                            assert(entries@[a] == before[a]);
                        }
                    }
                }
            },
            None => {
                entries.push((name, value));
                assert(entries@.drop_last() =~= before);
                assert(keys_unique(entries@)) by {
                    assert forall|a: int, b: int| 0 <= a < b < entries@.len() implies (#[trigger] entries@[a]).0@ != (#[trigger] entries@[b]).0@ by {
                        assert(entries@[a] == before[a]);
                        if b < before.len() {
                            assert(entries@[b] == before[b]);
                        }
                    }
                }
            },
        }
        self.entries = entries;
    }

    /// The value under `name`.
    pub fn get(&self, name: &str) -> (r: Option<&V>)
        ensures
            r is Some <==> self@.contains_key(name@),
            r matches Some(v) ==> self@[name@] == *v,
    {
        let mut i: usize = self.entries.len();
        assert(self.entries@.subrange(0, i as int) =~= self.entries@);
        while i > 0
            invariant
                i <= self.entries@.len(),
                self@.contains_key(name@) == entries_map(self.entries@.subrange(0, i as int)).contains_key(name@),
                self@.contains_key(name@) ==> self@[name@] == entries_map(self.entries@.subrange(0, i as int))[name@],
            decreases i,
        {
            let ghost pre = self.entries@.subrange(0, i as int);
            assert(pre.drop_last() =~= self.entries@.subrange(0, i - 1));
            if str_eq(self.entries[i - 1].0.as_str(), name) {
                return Some(&self.entries[i - 1].1);
            }
            i -= 1;
        }
        assert(self.entries@.subrange(0, 0) =~= Seq::<(String, V)>::empty());
        None
    }

    /// Whether a value is held under `name`.
    pub fn contains_key(&self, name: &str) -> (r: bool)
        ensures
            r == self@.contains_key(name@),
    {
        self.get(name).is_some()
    }

    /// The number of names held.
    pub fn len(&self) -> (r: usize)
        ensures
            r == self@.dom().len(),
    {
        proof {
            use_type_invariant(self);
            lemma_entries_len(self.entries@);
        }
        self.entries.len()
    }

    /// The entries, one per name, in the order the names were first given.
    pub fn entries(&self) -> (r: &Vec<(String, V)>)
        ensures
            entries_map(r@) == self@,
            keys_unique(r@),
    {
        proof {
            use_type_invariant(self);
        }
        &self.entries
    }
}

} // verus!
