//! A map from texts to values.

use crate::text;
use vstd::prelude::*;

verus! {

/// A map keyed by texts. Its entries stand in a list, no two with one key.
#[derive(Debug)]
pub struct StrMap<V> {
    entries: Vec<(String, V)>,
}

/// No two entries of a list have one key.
spec fn distinct_keys<V>(entries: Seq<(String, V)>) -> bool {
    forall|i: int, j: int|
        0 <= i < j < entries.len() ==> #[trigger] entries[i].0@ != #[trigger] entries[j].0@
}

/// The entry with a key.
spec fn has_key<V>(entries: Seq<(String, V)>, key: Seq<char>, i: int) -> bool {
    0 <= i < entries.len() && entries[i].0@ == key
}

/// The map that a list of entries stands for.
spec fn as_map<V>(entries: Seq<(String, V)>) -> Map<Seq<char>, V> {
    Map::new(
        |key: Seq<char>| exists|i: int| has_key(entries, key, i),
        |key: Seq<char>| entries[choose|i: int| has_key(entries, key, i)].1,
    )
}

proof fn entry_in_map<V>(entries: Seq<(String, V)>, i: int)
    requires
        distinct_keys(entries),
        0 <= i < entries.len(),
    ensures
        as_map(entries).contains_key(entries[i].0@),
        as_map(entries)[entries[i].0@] == entries[i].1,
{
    let key = entries[i].0@;
    assert(has_key(entries, key, i));
    let c = choose|c: int| has_key(entries, key, c);
    assert(has_key(entries, key, c));
    assert(c == i);
}

impl<V> StrMap<V> {
    #[verifier::type_invariant]
    spec fn well_formed(self) -> bool {
        distinct_keys(self.entries@)
    }

    /// The map that this stands for.
    pub closed spec fn map(self) -> Map<Seq<char>, V> {
        as_map(self.entries@)
    }
}

impl<V> View for StrMap<V> {
    type V = Map<Seq<char>, V>;

    open spec fn view(&self) -> Map<Seq<char>, V> {
        self.map()
    }
}

impl<V> StrMap<V> {
    /// The empty map.
    pub fn new() -> (r: Self)
        ensures
            r@ == Map::<Seq<char>, V>::empty(),
    {
        let r = StrMap { entries: Vec::new() };
        assert(r@ =~= Map::<Seq<char>, V>::empty());
        r
    }

    /// The place of the entry with a key.
    fn find(&self, key: &str) -> (r: Option<usize>)
        ensures
            match r {
                Some(i) => has_key(self.entries@, key@, i as int) && self@.contains_key(key@)
                    && self@[key@] == self.entries@[i as int].1,
                None => !self@.contains_key(key@),
            },
    {
        proof {
            use_type_invariant(self);
        }
        for i in 0..self.entries.len()
            invariant
                distinct_keys(self.entries@),
                forall|j: int| 0 <= j < i ==> #[trigger] self.entries@[j].0@ != key@,
        {
            if text::same(&self.entries[i].0, key) {
                proof {
                    entry_in_map(self.entries@, i as int);
                }
                return Some(i);
            }
        }
        None
    }

    /// The value under a key.
    pub fn get(&self, key: &str) -> (r: Option<&V>)
        ensures
            match r {
                Some(v) => self@.contains_key(key@) && *v == self@[key@],
                None => !self@.contains_key(key@),
            },
    {
        match self.find(key) {
            Some(i) => Some(&self.entries[i].1),
            None => None,
        }
    }

    /// Takes a key and its value out, and gives the value.
    pub fn remove(&mut self, key: &str) -> (r: Option<V>)
        ensures
            final(self)@ == old(self)@.remove(key@),
            match r {
                Some(v) => old(self)@.contains_key(key@) && v == old(self)@[key@],
                None => !old(self)@.contains_key(key@),
            },
    {
        match self.find(key) {
            Some(i) => {
                proof {
                    use_type_invariant(&*self);
                }
                let ghost before = self.entries@;
                let mut entries: Vec<(String, V)> = Vec::new();
                std::mem::swap(&mut entries, &mut self.entries);
                let (_, value) = entries.remove(i);
                proof {
                    removed_entry(before, i as int);
                    assert(entries@ =~= before.remove(i as int));
                }
                self.entries = entries;
                Some(value)
            },
            None => {
                assert(self@.remove(key@) =~= self@);
                None
            },
        }
    }

    /// Puts a value under a key, in place of the one that was there.
    pub fn insert(&mut self, key: String, value: V)
        ensures
            final(self)@ == old(self)@.insert(key@, value),
    {
        let ghost start = self@;
        let _ = self.remove(&key);
        proof {
            use_type_invariant(&*self);
        }
        let ghost before = self.entries@;
        let mut entries: Vec<(String, V)> = Vec::new();
        std::mem::swap(&mut entries, &mut self.entries);
        entries.push((key, value));
        proof {
            pushed_entry(before, (key, value));
            assert(entries@ =~= before.push((key, value)));
            assert(as_map(entries@) =~= start.insert(key@, value));
        }
        self.entries = entries;
    }
}

proof fn removed_entry<V>(entries: Seq<(String, V)>, at: int)
    requires
        distinct_keys(entries),
        0 <= at < entries.len(),
    ensures
        distinct_keys(entries.remove(at)),
        as_map(entries.remove(at)) == as_map(entries).remove(entries[at].0@),
{
    let rest = entries.remove(at);
    let key = entries[at].0@;
    assert forall|i: int, j: int| 0 <= i < j < rest.len() implies #[trigger] rest[i].0@
        != #[trigger] rest[j].0@ by {
        let a = if i < at { i } else { i + 1 };
        let b = if j < at { j } else { j + 1 };
        assert(entries[a].0@ != entries[b].0@);
    }
    assert forall|k: Seq<char>| #[trigger]
        as_map(rest).contains_key(k) <==> as_map(entries).remove(key).contains_key(k) by {
        if as_map(rest).contains_key(k) {
            let i = choose|i: int| has_key(rest, k, i);
            let a = if i < at { i } else { i + 1 };
            assert(has_key(entries, k, a));
            assert(entries[a].0@ != entries[at].0@);
        }
        if as_map(entries).contains_key(k) && k != key {
            let a = choose|a: int| has_key(entries, k, a);
            let i = if a < at { a } else { a - 1 };
            assert(has_key(rest, k, i));
        }
    }
    assert forall|k: Seq<char>| as_map(rest).contains_key(k) implies #[trigger] as_map(rest)[k]
        == as_map(entries).remove(key)[k] by {
        let i = choose|i: int| has_key(rest, k, i);
        let a = if i < at { i } else { i + 1 };
        assert(entries[a] == rest[i]);
        entry_in_map(entries, a);
        entry_in_map(rest, i);
    }
    assert(as_map(rest) =~= as_map(entries).remove(key));
}

proof fn pushed_entry<V>(entries: Seq<(String, V)>, e: (String, V))
    requires
        distinct_keys(entries),
        !as_map(entries).contains_key(e.0@),
    ensures
        distinct_keys(entries.push(e)),
        as_map(entries.push(e)) == as_map(entries).insert(e.0@, e.1),
{
    let more = entries.push(e);
    assert forall|i: int, j: int| 0 <= i < j < more.len() implies #[trigger] more[i].0@
        != #[trigger] more[j].0@ by {
        if j == entries.len() && more[i].0@ == e.0@ {
            assert(has_key(entries, e.0@, i));
        }
    }
    assert forall|k: Seq<char>| #[trigger]
        as_map(more).contains_key(k) <==> as_map(entries).insert(e.0@, e.1).contains_key(k) by {
        if as_map(more).contains_key(k) {
            let i = choose|i: int| has_key(more, k, i);
            if i < entries.len() {
                assert(has_key(entries, k, i));
            }
        }
        if as_map(entries).contains_key(k) {
            let i = choose|i: int| has_key(entries, k, i);
            assert(has_key(more, k, i));
        }
        assert(has_key(more, e.0@, entries.len() as int));
    }
    assert forall|k: Seq<char>| as_map(more).contains_key(k) implies #[trigger] as_map(more)[k]
        == as_map(entries).insert(e.0@, e.1)[k] by {
        let i = choose|i: int| has_key(more, k, i);
        entry_in_map(more, i);
        if i < entries.len() {
            assert(entries[i] == more[i]);
            entry_in_map(entries, i);
        }
    }
    assert(as_map(more) =~= as_map(entries).insert(e.0@, e.1));
}

} // verus!
