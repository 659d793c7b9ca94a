//! Tables: what a name stands for, kept in the order of first binding.

use vstd::prelude::*;

verus! {

/// What a sequence of bindings gives for `name`: the value of the last
/// binding under that name.
pub open spec fn assoc<T>(entries: Seq<(Seq<char>, T)>, name: Seq<char>) -> Option<T>
    decreases entries.len(),
{
    if entries.len() == 0 {
        None
    } else if entries.last().0 == name {
        Some(entries.last().1)
    } else {
        assoc(entries.drop_last(), name)
    }
}

/// The mapping that a sequence of bindings stands for.
pub open spec fn bound<T>(entries: Seq<(Seq<char>, T)>) -> Map<Seq<char>, T> {
    Map::new(
        |name: Seq<char>| assoc(entries, name) is Some,
        |name: Seq<char>| assoc(entries, name)->0,
    )
}

/// Bindings after `at` do not decide what `name` is bound to when none of
/// them is under `name`.
pub proof fn assoc_skips_others<T>(entries: Seq<(Seq<char>, T)>, name: Seq<char>, at: int)
    requires
        0 <= at <= entries.len(),
        forall|j: int| at <= j < entries.len() ==> entries[j].0 != name,
    ensures
        assoc(entries, name) == assoc(entries.take(at), name),
    decreases entries.len(),
{
    if at == entries.len() {
        assert(entries.take(at) =~= entries);
    } else {
        assert(entries.drop_last().take(at) =~= entries.take(at));
        assoc_skips_others(entries.drop_last(), name, at);
    }
}

/// Rebinding the last binding of a name changes that name and no other.
pub proof fn assoc_update<T>(entries: Seq<(Seq<char>, T)>, at: int, value: T, name: Seq<char>)
    requires
        0 <= at < entries.len(),
        forall|j: int| at < j < entries.len() ==> entries[j].0 != entries[at].0,
    ensures
        assoc(entries.update(at, (entries[at].0, value)), name) == (if name == entries[at].0 {
            Some(value)
        } else {
            assoc(entries, name)
        }),
    decreases entries.len(),
{
    let changed = entries.update(at, (entries[at].0, value));
    if at == entries.len() - 1 {
        assert(changed.drop_last() =~= entries.drop_last());
    } else {
        assert(changed.drop_last() =~= entries.drop_last().update(at, (entries[at].0, value)));
        assoc_update(entries.drop_last(), at, value, name);
    }
}

/// One more binding at the end binds its name, and no other name changes.
pub proof fn bound_push<T>(entries: Seq<(Seq<char>, T)>, name: Seq<char>, value: T)
    ensures
        bound(entries.push((name, value))) == bound(entries).insert(name, value),
{
    assert(entries.push((name, value)).drop_last() =~= entries);
}

/// A mutable mapping from names to values of one type.
pub struct Table<T> {
    entries: Vec<(String, T)>,
}

impl<T> View for Table<T> {
    type V = Map<Seq<char>, T>;

    open spec fn view(&self) -> Map<Seq<char>, T> {
        bound(self.entries())
    }
}

impl<T> Table<T> {
    /// The bindings, in the order in which their names were first bound.
    pub closed spec fn entries(&self) -> Seq<(Seq<char>, T)> {
        self.entries@.map_values(|e: (String, T)| (e.0@, e.1))
    }

    /// A table without bindings.
    pub fn new() -> (table: Table<T>)
        ensures
            table.entries() == Seq::<(Seq<char>, T)>::empty(),
            table@ == Map::<Seq<char>, T>::empty(),
    {
        let table = Table { entries: Vec::new() };
        table
    }

    /// The number of bindings.
    pub fn len(&self) -> (len: usize)
        ensures
            len == self.entries().len(),
    {
        self.entries.len()
    }

    /// The name of the binding at `at`.
    pub fn name_at(&self, at: usize) -> (name: &String)
        requires
            at < self.entries().len(),
        ensures
            name@ == self.entries()[at as int].0,
    {
        &self.entries[at].0
    }

    /// The value of the binding at `at`.
    pub fn value_at(&self, at: usize) -> (value: &T)
        requires
            at < self.entries().len(),
        ensures
            *value == self.entries()[at as int].1,
    {
        &self.entries[at].1
    }

    /// The place of the binding that decides `name`, if there is one.
    fn position(&self, name: &String) -> (at: Option<usize>)
        ensures
            match at {
                Some(i) => {
                    &&& i < self.entries().len()
                    &&& self.entries()[i as int].0 == name@
                    &&& forall|j: int| i < j < self.entries().len() ==> self.entries()[j].0 != name@
                },
                None => !self@.contains_key(name@),
            },
    {
        let mut i: usize = self.entries.len();
        while i > 0
            invariant
                i <= self.entries.len(),
                self.entries().len() == self.entries.len(),
                forall|j: int| i <= j < self.entries().len() ==> self.entries()[j].0 != name@,
            decreases i,
        {
            i -= 1;
            if self.entries[i].0 == *name {
                return Some(i);
            }
        }
        proof {
            assoc_skips_others(self.entries(), name@, 0);
        }
        None
    }

    /// What `name` is bound to, if anything.
    pub fn find(&self, name: &str) -> (found: Option<&T>)
        ensures
            match found {
                Some(value) => self@.contains_key(name@) && self@[name@] == *value,
                None => !self@.contains_key(name@),
            },
    {
        let key = name.to_owned();
        match self.position(&key) {
            Some(i) => {
                proof {
                    assoc_skips_others(self.entries(), name@, i + 1);
                }
                Some(&self.entries[i].1)
            },
            None => None,
        }
    }

    /// Binds `name` to `value`, replacing what it was bound to before.
    pub fn insert(&mut self, name: String, value: T)
        ensures
            final(self)@ == old(self)@.insert(name@, value),
    {
        let ghost before = self.entries();
        match self.position(&name) {
            Some(i) => {
                proof {
                    assert forall|k: Seq<char>|
                        assoc(before.update(i as int, (name@, value)), k) == (if k == name@ {
                            Some(value)
                        } else {
                            assoc(before, k)
                        }) by {
                        assoc_update(before, i as int, value, k);
                    }
                }
                self.entries[i] = (name, value);
                assert(self.entries() =~= before.update(i as int, (name@, value)));
            },
            None => {
                self.entries.push((name, value));
                assert(self.entries().drop_last() =~= before);
            },
        }
    }
}

} // verus!
