//! A map from names to values, kept as a list of entries in which no name
//! occurs twice. Names are compared as whole strings.

use vstd::prelude::*;

verus! {

/// Entry `i` of `entries` exists and carries `name`.
spec fn names_at<T>(entries: Seq<(String, T)>, name: Seq<char>, i: int) -> bool {
    0 <= i < entries.len() && entries[i].0@ == name
}

/// No name occurs in two entries.
spec fn distinct_names<T>(entries: Seq<(String, T)>) -> bool {
    forall|i: int, j: int| 0 <= i < j < entries.len() ==> entries[i].0@ != entries[j].0@
}

/// The map that the entries stand for.
spec fn entries_map<T>(entries: Seq<(String, T)>) -> Map<Seq<char>, T> {
    Map::new(
        |name: Seq<char>| exists|i: int| names_at(entries, name, i),
        |name: Seq<char>| entries[choose|i: int| names_at(entries, name, i)].1,
    )
}

/// In a list without repeated names each entry is what the map holds under
/// its name.
proof fn lemma_entry_in_map<T>(entries: Seq<(String, T)>, i: int)
    requires
        distinct_names(entries),
        0 <= i < entries.len(),
    ensures
        entries_map(entries).contains_key(entries[i].0@),
        entries_map(entries)[entries[i].0@] == entries[i].1,
{
    assert(names_at(entries, entries[i].0@, i));
}

/// Appending an entry under a new name inserts it into the map.
proof fn lemma_push_inserts<T>(entries: Seq<(String, T)>, name: String, value: T)
    requires
        distinct_names(entries),
        !entries_map(entries).contains_key(name@),
    ensures
        distinct_names(entries.push((name, value))),
        entries_map(entries.push((name, value))) == entries_map(entries).insert(name@, value),
{
    let after = entries.push((name, value));
    assert forall|i: int, j: int| 0 <= i < j < after.len() implies after[i].0@ != after[j].0@ by {
        if j == entries.len() {
            assert(names_at(entries, entries[i].0@, i));
        }
    }
    let target = entries_map(entries).insert(name@, value);
    assert forall|n: Seq<char>| entries_map(after).contains_key(n) <==> target.contains_key(
        n,
    ) by {
        if entries_map(after).contains_key(n) {
            let i = choose|i: int| names_at(after, n, i);
            if i < entries.len() {
                assert(names_at(entries, n, i));
            }
        }
        if target.contains_key(n) {
            if n == name@ {
                assert(names_at(after, n, entries.len() as int));
            } else {
                let i = choose|i: int| names_at(entries, n, i);
                assert(names_at(after, n, i));
            }
        }
    }
    assert forall|n: Seq<char>| entries_map(after).contains_key(n) implies entries_map(after)[n]
        == target[n] by {
        let i = choose|i: int| names_at(after, n, i);
        lemma_entry_in_map(after, i);
        if i < entries.len() {
            lemma_entry_in_map(entries, i);
        }
    }
}

/// Taking an entry out removes its name from the map.
proof fn lemma_remove_removes<T>(entries: Seq<(String, T)>, i: int)
    requires
        distinct_names(entries),
        0 <= i < entries.len(),
    ensures
        distinct_names(entries.remove(i)),
        entries_map(entries.remove(i)) == entries_map(entries).remove(entries[i].0@),
{
    let after = entries.remove(i);
    let gone = entries[i].0@;
    let target = entries_map(entries).remove(gone);
    assert forall|a: int, b: int| 0 <= a < b < after.len() implies after[a].0@ != after[b].0@ by {
        let a0 = if a < i { a } else { a + 1 };
        let b0 = if b < i { b } else { b + 1 };
        assert(after[a] == entries[a0] && after[b] == entries[b0]);
    }
    assert forall|n: Seq<char>| entries_map(after).contains_key(n) <==> target.contains_key(
        n,
    ) by {
        if entries_map(after).contains_key(n) {
            let a = choose|a: int| names_at(after, n, a);
            let a0 = if a < i { a } else { a + 1 };
            assert(names_at(entries, n, a0));
        }
        if target.contains_key(n) {
            let a0 = choose|a0: int| names_at(entries, n, a0);
            let a = if a0 < i { a0 } else { a0 - 1 };
            assert(names_at(after, n, a));
        }
    }
    assert forall|n: Seq<char>| entries_map(after).contains_key(n) implies entries_map(after)[n]
        == target[n] by {
        let a = choose|a: int| names_at(after, n, a);
        let a0 = if a < i { a } else { a + 1 };
        lemma_entry_in_map(after, a);
        lemma_entry_in_map(entries, a0);
    }
}

/// A map from names to values of type `T`.
pub struct NameMap<T> {
    entries: Vec<(String, T)>,
}

impl<T> View for NameMap<T> {
    type V = Map<Seq<char>, T>;

    closed spec fn view(&self) -> Map<Seq<char>, T> {
        entries_map(self.entries@)
    }
}

impl<T> NameMap<T> {
    /// No name occurs in two entries.
    pub closed spec fn wf(&self) -> bool {
        distinct_names(self.entries@)
    }

    /// The empty map.
    pub fn new() -> (map: Self)
        ensures
            map.wf(),
            map@ == Map::<Seq<char>, T>::empty(),
    {
        NameMap { entries: Vec::new() }
    }

    /// The index of the entry that carries `name`, if there is one.
    fn find(&self, name: &String) -> (found: Option<usize>)
        requires
            self.wf(),
        ensures
            match found {
                Some(i) => names_at(self.entries@, name@, i as int),
                None => !self@.contains_key(name@),
            },
    {
        let mut i: usize = 0;
        while i < self.entries.len()
            invariant
                i <= self.entries.len(),
                forall|j: int| 0 <= j < i ==> self.entries@[j].0@ != name@,
            decreases self.entries.len() - i,
        {
            if self.entries[i].0 == *name {
                return Some(i);
            }
            i = i + 1;
        }
        None
    }

    /// Whether the map holds a value under `name`.
    pub fn contains(&self, name: &str) -> (found: bool)
        requires
            self.wf(),
        ensures
            found == self@.contains_key(name@),
    {
        let key = name.to_owned();
        match self.find(&key) {
            Some(_) => true,
            None => false,
        }
    }

    /// The value under `name`, if the map holds one.
    pub fn get(&self, name: &str) -> (found: Option<&T>)
        requires
            self.wf(),
        ensures
            match found {
                Some(value) => self@.contains_key(name@) && *value == self@[name@],
                None => !self@.contains_key(name@),
            },
    {
        let key = name.to_owned();
        match self.find(&key) {
            Some(i) => {
                proof {
                    lemma_entry_in_map(self.entries@, i as int);
                }
                Some(&self.entries[i].1)
            },
            None => None,
        }
    }

    /// Takes the entry under `name` out of the map, if the map holds one.
    pub fn take(&mut self, name: &str) -> (taken: Option<(String, T)>)
        requires
            old(self).wf(),
        ensures
            final(self).wf(),
            final(self)@ == old(self)@.remove(name@),
            match taken {
                Some(entry) => old(self)@.contains_key(name@) && entry.0@ == name@ && entry.1
                    == old(self)@[name@],
                None => !old(self)@.contains_key(name@),
            },
    {
        let key = name.to_owned();
        match self.find(&key) {
            Some(i) => {
                proof {
                    lemma_entry_in_map(self.entries@, i as int);
                    lemma_remove_removes(self.entries@, i as int);
                }
                Some(self.entries.remove(i))
            },
            None => None,
        }
    }

    /// Puts `value` under `name`, in place of the value that the map held
    /// there, which is returned.
    pub fn insert(&mut self, name: String, value: T) -> (replaced: Option<T>)
        requires
            old(self).wf(),
        ensures
            final(self).wf(),
            final(self)@ == old(self)@.insert(name@, value),
            match replaced {
                Some(before) => old(self)@.contains_key(name@) && before == old(self)@[name@],
                None => !old(self)@.contains_key(name@),
            },
    {
        let replaced = match self.find(&name) {
            Some(i) => {
                proof {
                    lemma_entry_in_map(self.entries@, i as int);
                    lemma_remove_removes(self.entries@, i as int);
                }
                Some(self.entries.remove(i).1)
            },
            None => None,
        };
        proof {
            lemma_push_inserts(self.entries@, name, value);
        }
        self.entries.push((name, value));
        replaced
    }
}

} // verus!
