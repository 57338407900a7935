//! A table from names to values.

use vstd::prelude::*;

verus! {

/// A finite map keyed by name. Each name has at most one live binding: setting
/// a name again replaces what it was bound to.
pub struct NameTable<V> {
    entries: Vec<(String, V)>,
}

/// What `name` is bound to by the entries `s`, the latest entry taking
/// precedence.
pub open spec fn bound<V>(s: Seq<(String, V)>, name: Seq<char>) -> Option<V>
    decreases s.len(),
{
    if s.len() == 0 {
        None
    } else if s.last().0@ == name {
        Some(s.last().1)
    } else {
        bound(s.drop_last(), name)
    }
}

proof fn lemma_bound_push<V>(s: Seq<(String, V)>, entry: (String, V), name: Seq<char>)
    ensures
        bound(s.push(entry), name) == (if entry.0@ == name {
            Some(entry.1)
        } else {
            bound(s, name)
        }),
{
    assert(s.push(entry).drop_last() =~= s);
}

proof fn lemma_bound_take<V>(s: Seq<(String, V)>, i: int, name: Seq<char>)
    requires
        0 < i <= s.len(),
    ensures
        bound(s.take(i), name) == (if s[i - 1].0@ == name {
            Some(s[i - 1].1)
        } else {
            bound(s.take(i - 1), name)
        }),
{
    assert(s.take(i).drop_last() =~= s.take(i - 1));
}

/// Replacing the entry that decides `entry.0` leaves every other name as it was.
proof fn lemma_bound_update<V>(s: Seq<(String, V)>, j: int, entry: (String, V), name: Seq<char>)
    requires
        0 <= j < s.len(),
        s[j].0@ == entry.0@,
        forall|i: int| j < i < s.len() ==> s[i].0@ != entry.0@,
    ensures
        bound(s.update(j, entry), name) == (if entry.0@ == name {
            Some(entry.1)
        } else {
            bound(s, name)
        }),
    decreases s.len(),
{
    let t = s.update(j, entry);
    assert(t.len() == s.len());
    if j == s.len() - 1 {
        assert(t.drop_last() =~= s.drop_last());
    } else {
        assert(t.drop_last() =~= s.drop_last().update(j, entry));
        lemma_bound_update(s.drop_last(), j, entry, name);
    }
}

impl<V> View for NameTable<V> {
    type V = Map<Seq<char>, V>;

    closed spec fn view(&self) -> Map<Seq<char>, V> {
        Map::new(
            |name: Seq<char>| bound(self.entries@, name) is Some,
            |name: Seq<char>| bound(self.entries@, name)->0,
        )
    }
}

impl<V> NameTable<V> {
    pub fn new() -> (table: Self)
        ensures
            table@ == Map::<Seq<char>, V>::empty(),
    {
        let table = NameTable { entries: Vec::new() };
        assert(table@ =~= Map::<Seq<char>, V>::empty());
        table
    }

    /// What `name` is bound to, if anything.
    pub open spec fn lookup(&self, name: Seq<char>) -> Option<V> {
        if self@.contains_key(name) {
            Some(self@[name])
        } else {
            None
        }
    }

    fn position(&self, name: &String) -> (found: Option<usize>)
        ensures
            match found {
                Some(j) => j < self.entries@.len() && self.entries@[j as int].0@ == name@ && bound(
                    self.entries@,
                    name@,
                ) == Some(self.entries@[j as int].1) && forall|i: int|
                    j < i < self.entries@.len() ==> self.entries@[i].0@ != name@,
                None => bound(self.entries@, name@) is None,
            },
    {
        let mut i = self.entries.len();
        assert(self.entries@.take(i as int) =~= self.entries@);
        while i > 0
            invariant
                i <= self.entries@.len(),
                bound(self.entries@, name@) == bound(self.entries@.take(i as int), name@),
                forall|k: int| i <= k < self.entries@.len() ==> self.entries@[k].0@ != name@,
            decreases i,
        {
            proof {
                lemma_bound_take(self.entries@, i as int, name@);
            }
            i = i - 1;
            if self.entries[i].0 == *name {
                return Some(i);
            }
        }
        assert(self.entries@.take(0) =~= Seq::<(String, V)>::empty());
        None
    }

    /// The value bound to `name`, if there is one.
    pub fn get(&self, name: &String) -> (value: Option<&V>)
        ensures
            match value {
                Some(v) => self.lookup(name@) == Some(*v),
                None => self.lookup(name@) is None,
            },
    {
        match self.position(name) {
            Some(j) => Some(&self.entries[j].1),
            None => None,
        }
    }

    /// Binds `name` to `value`, replacing an earlier binding of the same name.
    pub fn insert(&mut self, name: String, value: V)
        ensures
            final(self)@ == old(self)@.insert(name@, value),
    {
        let found = self.position(&name);
        let ghost before = self.entries@;
        let ghost entry = (name, value);
        match found {
            Some(j) => {
                self.entries[j] = (name, value);
                assert forall|n: Seq<char>| bound(self.entries@, n) == (if name@ == n {
                    Some(value)
                } else {
                    bound(before, n)
                }) by {
                    lemma_bound_update(before, j as int, entry, n);
                }
            },
            None => {
                self.entries.push((name, value));
                assert forall|n: Seq<char>| bound(self.entries@, n) == (if name@ == n {
                    Some(value)
                } else {
                    bound(before, n)
                }) by {
                    lemma_bound_push(before, entry, n);
                }
            },
        }
        assert(self@ =~= old(self)@.insert(name@, value));
    }
}

} // verus!
