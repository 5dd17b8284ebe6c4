//! A map from names to values, kept as a list of entries.

use vstd::prelude::*;

verus! {

/// The map that a list of entries stands for. Where a name occurs more than
/// once, its first entry counts.
pub open spec fn assoc_map<V>(entries: Seq<(Seq<char>, V)>) -> Map<Seq<char>, V>
    decreases entries.len(),
{
    if entries.len() == 0 {
        Map::empty()
    } else {
        assoc_map(entries.drop_first()).insert(entries[0].0, entries[0].1)
    }
}

/// The entries whose name is not `name`, in their order.
pub open spec fn without<V>(entries: Seq<(Seq<char>, V)>, name: Seq<char>) -> Seq<(Seq<char>, V)>
    decreases entries.len(),
{
    if entries.len() == 0 {
        Seq::empty()
    } else if entries[0].0 == name {
        without(entries.drop_first(), name)
    } else {
        seq![entries[0]] + without(entries.drop_first(), name)
    }
}

/// Whether `i` is the place of the first entry named `name`.
pub open spec fn is_first<V>(entries: Seq<(Seq<char>, V)>, name: Seq<char>, i: int) -> bool {
    &&& 0 <= i < entries.len()
    &&& entries[i].0 == name
    &&& forall|k: int| 0 <= k < i ==> (#[trigger] entries[k]).0 != name
}

/// Whether no entry is named `name`.
pub open spec fn is_absent<V>(entries: Seq<(Seq<char>, V)>, name: Seq<char>) -> bool {
    forall|k: int| 0 <= k < entries.len() ==> (#[trigger] entries[k]).0 != name
}

/// The first entry of a name gives the name's value.
pub proof fn lemma_found<V>(entries: Seq<(Seq<char>, V)>, name: Seq<char>, i: int)
    requires
        is_first(entries, name, i),
    ensures
        assoc_map(entries).contains_key(name),
        assoc_map(entries)[name] == entries[i].1,
    decreases i,
{
    if i > 0 {
        let rest = entries.drop_first();
        assert forall|k: int| 0 <= k < i - 1 implies (#[trigger] rest[k]).0 != name by {
            assert(rest[k] == entries[k + 1]);
        }
        assert(rest[i - 1] == entries[i]);
        assert(entries[0].0 != name);
        lemma_found(rest, name, i - 1);
    }
}

/// A name without an entry has no value.
pub proof fn lemma_absent<V>(entries: Seq<(Seq<char>, V)>, name: Seq<char>)
    requires
        is_absent(entries, name),
    ensures
        !assoc_map(entries).contains_key(name),
    decreases entries.len(),
{
    if entries.len() > 0 {
        let rest = entries.drop_first();
        assert forall|k: int| 0 <= k < rest.len() implies (#[trigger] rest[k]).0 != name by {
            assert(rest[k] == entries[k + 1]);
        }
        assert(entries[0].0 != name);
        lemma_absent(rest, name);
    }
}

/// Replacing the first entry of a name gives the name a new value.
pub proof fn lemma_replaced<V>(entries: Seq<(Seq<char>, V)>, name: Seq<char>, i: int, value: V)
    requires
        is_first(entries, name, i),
    ensures
        assoc_map(entries.update(i, (name, value))) == assoc_map(entries).insert(name, value),
    decreases i,
{
    let after = entries.update(i, (name, value));
    let rest = entries.drop_first();
    if i == 0 {
        assert(after.drop_first() =~= rest);
        assert(assoc_map(after) =~= assoc_map(entries).insert(name, value));
    } else {
        assert forall|k: int| 0 <= k < i - 1 implies (#[trigger] rest[k]).0 != name by {
            assert(rest[k] == entries[k + 1]);
        }
        assert(rest[i - 1] == entries[i]);
        assert(entries[0].0 != name);
        lemma_replaced(rest, name, i - 1, value);
        assert(after.drop_first() =~= rest.update(i - 1, (name, value)));
        assert(assoc_map(after) =~= assoc_map(entries).insert(name, value));
    }
}

/// Adding an entry for a name that has none gives the name a value.
pub proof fn lemma_pushed<V>(entries: Seq<(Seq<char>, V)>, name: Seq<char>, value: V)
    requires
        is_absent(entries, name),
    ensures
        assoc_map(entries.push((name, value))) == assoc_map(entries).insert(name, value),
    decreases entries.len(),
{
    let after = entries.push((name, value));
    if entries.len() == 0 {
        assert(after.drop_first() =~= entries);
        assert(assoc_map(after) =~= assoc_map(entries).insert(name, value));
    } else {
        let rest = entries.drop_first();
        assert forall|k: int| 0 <= k < rest.len() implies (#[trigger] rest[k]).0 != name by {
            assert(rest[k] == entries[k + 1]);
        }
        assert(entries[0].0 != name);
        lemma_pushed(rest, name, value);
        assert(after.drop_first() =~= rest.push((name, value)));
        assert(assoc_map(after) =~= assoc_map(entries).insert(name, value));
    }
}

/// Dropping every entry of a name takes the name out of the map.
pub proof fn lemma_without<V>(entries: Seq<(Seq<char>, V)>, name: Seq<char>)
    ensures
        assoc_map(without(entries, name)) == assoc_map(entries).remove(name),
        is_absent(without(entries, name), name),
    decreases entries.len(),
{
    if entries.len() == 0 {
        assert(assoc_map(without(entries, name)) =~= assoc_map(entries).remove(name));
    } else {
        let rest = entries.drop_first();
        lemma_without(rest, name);
        if entries[0].0 == name {
            assert(assoc_map(without(entries, name)) =~= assoc_map(entries).remove(name));
        } else {
            let kept = seq![entries[0]] + without(rest, name);
            assert(kept.drop_first() =~= without(rest, name));
            assert(kept[0] == entries[0]);
            assert(assoc_map(kept) =~= assoc_map(entries).remove(name));
            assert forall|k: int| 0 <= k < kept.len() implies (#[trigger] kept[k]).0 != name by {
                if k > 0 {
                    assert(kept[k] == without(rest, name)[k - 1]);
                }
            }
        }
    }
}

/// Dropping a name's entries from two lists in a row is dropping them from each.
pub proof fn lemma_without_concat<V>(
    a: Seq<(Seq<char>, V)>,
    b: Seq<(Seq<char>, V)>,
    name: Seq<char>,
)
    ensures
        without(a + b, name) == without(a, name) + without(b, name),
    decreases a.len(),
{
    if a.len() == 0 {
        assert(a + b =~= b);
        assert(without(a, name) + without(b, name) =~= without(b, name));
    } else {
        assert((a + b).drop_first() =~= a.drop_first() + b);
        lemma_without_concat(a.drop_first(), b, name);
        assert(without(a + b, name) =~= without(a, name) + without(b, name));
    }
}

/// A map from names to values, kept as a list of entries in the order in
/// which the names were first given a value.
pub struct NameMap<T> {
    entries: Vec<(String, T)>,
}

impl<T: View> View for NameMap<T> {
    type V = Map<Seq<char>, T::V>;

    open spec fn view(&self) -> Map<Seq<char>, T::V> {
        assoc_map(self.entries())
    }
}

impl<T: View> NameMap<T> {
    /// The entries in order, each as a name and the value's view.
    pub closed spec fn entries(&self) -> Seq<(Seq<char>, T::V)> {
        Seq::new(self.entries@.len(), |i: int| (self.entries@[i].0@, self.entries@[i].1@))
    }

    /// An empty map.
    pub fn new() -> (out: Self)
        ensures
            out.entries() == Seq::<(Seq<char>, T::V)>::empty(),
            out@ == Map::<Seq<char>, T::V>::empty(),
    {
        let out = NameMap { entries: Vec::new() };
        assert(out.entries() =~= Seq::<(Seq<char>, T::V)>::empty());
        out
    }

    /// The number of entries.
    pub fn len(&self) -> (n: usize)
        ensures
            n == self.entries().len(),
    {
        self.entries.len()
    }

    /// The name of the entry at `i`.
    pub fn name_at(&self, i: usize) -> (name: &String)
        requires
            i < self.entries().len(),
        ensures
            name@ == self.entries()[i as int].0,
    {
        &self.entries[i].0
    }

    /// The value of the entry at `i`.
    pub fn value_at(&self, i: usize) -> (value: &T)
        requires
            i < self.entries().len(),
        ensures
            value@ == self.entries()[i as int].1,
    {
        &self.entries[i].1
    }

    fn position(&self, name: &String) -> (at: Option<usize>)
        ensures
            match at {
                Some(i) => is_first(self.entries(), name@, i as int),
                None => is_absent(self.entries(), name@),
            },
    {
        let mut i: usize = 0;
        while i < self.entries.len()
            invariant
                i <= self.entries@.len(),
                forall|k: int| 0 <= k < i ==> (#[trigger] self.entries()[k]).0 != name@,
            decreases self.entries.len() - i,
        {
            if self.entries[i].0 == *name {
                return Some(i);
            }
            i += 1;
        }
        None
    }

    /// Whether `name` has a value.
    pub fn contains_key(&self, name: &String) -> (found: bool)
        ensures
            found == self@.contains_key(name@),
    {
        match self.position(name) {
            Some(i) => {
                proof {
                    lemma_found(self.entries(), name@, i as int);
                }
                true
            },
            None => {
                proof {
                    lemma_absent(self.entries(), name@);
                }
                false
            },
        }
    }

    /// The value of `name`, if it has one.
    pub fn get(&self, name: &String) -> (value: Option<&T>)
        ensures
            match value {
                Some(v) => self@.contains_key(name@) && v@ == self@[name@],
                None => !self@.contains_key(name@),
            },
    {
        match self.position(name) {
            Some(i) => {
                proof {
                    lemma_found(self.entries(), name@, i as int);
                }
                Some(&self.entries[i].1)
            },
            None => {
                proof {
                    lemma_absent(self.entries(), name@);
                }
                None
            },
        }
    }

    /// Gives `name` the value `value`, in place of the value it had, if any.
    pub fn insert(&mut self, name: String, value: T)
        ensures
            final(self)@ == old(self)@.insert(name@, value@),
            old(self)@.contains_key(name@) ==> final(self).entries().len() == old(
                self,
            ).entries().len(),
            !old(self)@.contains_key(name@) ==> final(self).entries() == old(self).entries().push(
                (name@, value@),
            ),
    {
        let ghost before = self.entries();
        let ghost entry = (name@, value@);
        match self.position(&name) {
            Some(i) => {
                self.entries[i] = (name, value);
                proof {
                    assert(self.entries() =~= before.update(i as int, entry));
                    lemma_found(before, entry.0, i as int);
                    lemma_replaced(before, entry.0, i as int, entry.1);
                }
            },
            None => {
                self.entries.push((name, value));
                proof {
                    assert(self.entries() =~= before.push(entry));
                    lemma_absent(before, entry.0);
                    lemma_pushed(before, entry.0, entry.1);
                }
            },
        }
    }

    /// Takes `name` and its value out of the map.
    pub fn remove(&mut self, name: &String) -> (value: Option<T>)
        ensures
            final(self)@ == old(self)@.remove(name@),
            final(self).entries() == without(old(self).entries(), name@),
            match value {
                Some(v) => old(self)@.contains_key(name@) && v@ == old(self)@[name@],
                None => !old(self)@.contains_key(name@),
            },
    {
        let ghost before = self.entries();
        let mut found: Option<T> = None;
        let mut i: usize = 0;
        let ghost mut j: int = 0;
        let ghost mut first: int = 0;
        while i < self.entries.len()
            invariant
                0 <= j <= before.len(),
                i <= self.entries@.len(),
                self.entries@.len() - i == before.len() - j,
                i == without(before.subrange(0, j), name@).len(),
                self.entries() == without(before.subrange(0, j), name@) + before.subrange(
                    j,
                    before.len() as int,
                ),
                match found {
                    Some(v) => is_first(before, name@, first) && first < j && v@ == before[first].1,
                    None => forall|k: int| 0 <= k < j ==> (#[trigger] before[k]).0 != name@,
                },
            decreases before.len() - j,
        {
            let ghost current = self.entries();
            proof {
                assert(current[i as int] == before[j]);
                assert(before.subrange(0, j + 1) =~= before.subrange(0, j) + seq![before[j]]);
                lemma_without_concat(before.subrange(0, j), seq![before[j]], name@);
                let one = seq![before[j]];
                assert(one.drop_first() =~= Seq::<(Seq<char>, T::V)>::empty());
                assert(without(one.drop_first(), name@) =~= Seq::<(Seq<char>, T::V)>::empty());
                assert(one[0] == before[j]);
            }
            if self.entries[i].0 == *name {
                let entry = self.entries.remove(i);
                proof {
                    assert(without(seq![before[j]], name@) =~= Seq::<(Seq<char>, T::V)>::empty());
                    assert(self.entries() =~= current.remove(i as int));
                    assert(without(before.subrange(0, j + 1), name@) =~= without(
                        before.subrange(0, j),
                        name@,
                    ));
                    assert(self.entries() =~= without(before.subrange(0, j + 1), name@)
                        + before.subrange(j + 1, before.len() as int));
                }
                if found.is_none() {
                    proof {
                        first = j;
                    }
                    found = Some(entry.1);
                }
            } else {
                proof {
                    assert(without(seq![before[j]], name@) =~= seq![before[j]]);
                    assert(self.entries() =~= without(before.subrange(0, j + 1), name@)
                        + before.subrange(j + 1, before.len() as int));
                }
                i += 1;
            }
            proof {
                j = j + 1;
            }
        }
        proof {
            assert(before.subrange(0, j) =~= before);
            assert(self.entries() =~= without(before, name@));
            lemma_without(before, name@);
            if found is Some {
                lemma_found(before, name@, first);
            } else {
                lemma_absent(before, name@);
            }
        }
        found
    }
}

} // verus!
