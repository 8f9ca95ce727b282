//! A small map keyed by text.

use vstd::prelude::*;
use vstd::string::*;

verus! {

struct Entry<V> {
    name: String,
    value: V,
}

/// A map from names to values. A name, once put, stays; its value can be
/// replaced. Lookups walk the entries, which suits the handful of names that
/// the registry keeps.
pub struct NameMap<V> {
    entries: Vec<Entry<V>>,
}

spec fn value_from<V>(entries: Seq<Entry<V>>, name: Seq<char>, from: int) -> Option<V>
    decreases entries.len() - from,
{
    if from < 0 || from >= entries.len() {
        None
    } else if entries[from].name@ == name {
        Some(entries[from].value)
    } else {
        value_from(entries, name, from + 1)
    }
}

proof fn lemma_skip<V>(entries: Seq<Entry<V>>, name: Seq<char>, from: int, to: int)
    requires
        0 <= from <= to <= entries.len(),
        forall|j: int| from <= j < to ==> entries[j].name@ != name,
    ensures
        value_from(entries, name, from) == value_from(entries, name, to),
    decreases to - from,
{
    if from < to {
        lemma_skip(entries, name, from + 1, to);
    }
}

proof fn lemma_other_names<V>(
    before: Seq<Entry<V>>,
    after: Seq<Entry<V>>,
    changed: Seq<char>,
    name: Seq<char>,
    from: int,
)
    requires
        0 <= from,
        name != changed,
        before.len() <= after.len(),
        forall|j: int|
            0 <= j < before.len() ==> before[j].name@ == after[j].name@ && (before[j].value
                == after[j].value || before[j].name@ == changed),
        forall|j: int| before.len() <= j < after.len() ==> after[j].name@ == changed,
    ensures
        value_from(after, name, from) == value_from(before, name, from),
    decreases after.len() - from,
{
    if from < after.len() {
        lemma_other_names(before, after, changed, name, from + 1);
    }
}

impl<V> View for NameMap<V> {
    type V = Map<Seq<char>, V>;

    /// The names that were put, each with the value put last.
    closed spec fn view(&self) -> Map<Seq<char>, V> {
        Map::new(
            |name: Seq<char>| value_from(self.entries@, name, 0) is Some,
            |name: Seq<char>| value_from(self.entries@, name, 0)->0,
        )
    }
}

impl<V> NameMap<V> {
    /// A map without names.
    pub fn new() -> (map: Self)
        ensures
            map@ == Map::<Seq<char>, V>::empty(),
    {
        let map = NameMap { entries: Vec::new() };
        assert(map@ =~= Map::<Seq<char>, V>::empty());
        map
    }

    fn find(&self, name: &str) -> (at: Option<usize>)
        ensures
            match at {
                Some(i) => {
                    &&& i < self.entries@.len()
                    &&& self.entries@[i as int].name@ == name@
                    &&& self@.contains_key(name@)
                    &&& self@[name@] == self.entries@[i as int].value
                    &&& forall|j: int| 0 <= j < i ==> self.entries@[j].name@ != name@
                },
                None => {
                    &&& !self@.contains_key(name@)
                    &&& forall|j: int|
                        0 <= j < self.entries@.len() ==> self.entries@[j].name@ != name@
                },
            },
    {
        let key = name.to_owned();
        let mut i: usize = 0;
        while i < self.entries.len()
            invariant
                key@ == name@,
                i <= self.entries@.len(),
                forall|j: int| 0 <= j < i ==> self.entries@[j].name@ != name@,
            decreases self.entries@.len() - i,
        {
            if self.entries[i].name == key {
                proof {
                    lemma_skip(self.entries@, name@, 0, i as int);
                }
                return Some(i);
            }
            i += 1;
        }
        proof {
            lemma_skip(self.entries@, name@, 0, i as int);
        }
        None
    }

    /// The value under `name`, if the name was put.
    pub fn get(&self, name: &str) -> (found: Option<&V>)
        ensures
            found == (if self@.contains_key(name@) {
                Some(&self@[name@])
            } else {
                None
            }),
    {
        match self.find(name) {
            Some(i) => Some(&self.entries[i].value),
            None => None,
        }
    }

    /// Puts `value` under `name`, in place of the value that was there.
    pub fn put(&mut self, name: &str, value: V)
        ensures
            final(self)@ == old(self)@.insert(name@, value),
    {
        match self.find(name) {
            Some(i) => {
                self.entries[i].value = value;
                proof {
                    lemma_skip(self.entries@, name@, 0, i as int);
                }
            },
            None => {
                self.entries.push(Entry { name: name.to_owned(), value });
                proof {
                    lemma_skip(self.entries@, name@, 0, self.entries@.len() - 1);
                }
            },
        }
        proof {
            assert forall|other: Seq<char>| other != name@ implies value_from(
                self.entries@,
                other,
                0,
            ) == value_from(old(self).entries@, other, 0) by {
                lemma_other_names(old(self).entries@, self.entries@, name@, other, 0);
            }
            assert(self@ =~= old(self)@.insert(name@, value));
        }
    }
}

} // verus!
