//! The connection pool registry: the process-wide cache mapping a connection
//! identifier (a DSN string) to the pool opened for it.
//!
//! The registry itself stores only plain data: each identifier is paired with
//! an opaque pool handle chosen by the driver that owns the actual pools. Two
//! lookups with an identical identifier string see the same handle; no
//! normalization of identifiers is performed. Entries are never evicted. The
//! driver guards the registry with a mutual exclusion primitive held only for
//! the duration of one lookup or insert, never across a suspending connect.

use vstd::prelude::*;

verus! {

/// The cache: a list of (identifier, handle) pairs with pairwise distinct
/// identifiers, modelled as a map from character sequences to handles.
pub struct PoolRegistry {
    entries: Vec<(String, u64)>,
}

/// The map described by a list of entries; a later entry for the same
/// identifier wins.
pub open spec fn entries_map(s: Seq<(String, u64)>) -> Map<Seq<char>, u64>
    decreases s.len(),
{
    if s.len() == 0 {
        Map::empty()
    } else {
        entries_map(s.drop_last()).insert(s.last().0@, s.last().1)
    }
}

/// An identifier occurs in the map exactly when some entry carries it.
proof fn lemma_entries_map_domain(s: Seq<(String, u64)>, k: Seq<char>)
    ensures
        entries_map(s).contains_key(k) <==> exists|i: int| 0 <= i < s.len() && s[i].0@ == k,
    decreases s.len(),
{
    if s.len() > 0 {
        lemma_entries_map_domain(s.drop_last(), k);
        if s.last().0@ == k {
            assert(s[s.len() - 1].0@ == k);
        } else if entries_map(s).contains_key(k) {
            let i = choose|i: int| 0 <= i < s.drop_last().len() && s.drop_last()[i].0@ == k;
            assert(s[i].0@ == k);
        } else {
            assert(forall|i: int| 0 <= i < s.len() - 1 ==> s.drop_last()[i] == s[i]);
        }
    }
}

/// With pairwise distinct identifiers, the map sends an entry's identifier to
/// that entry's handle.
proof fn lemma_entries_map_value(s: Seq<(String, u64)>, i: int)
    requires
        forall|p: int, q: int| 0 <= p < q < s.len() ==> s[p].0@ != s[q].0@,
        0 <= i < s.len(),
    ensures
        entries_map(s).contains_key(s[i].0@),
        entries_map(s)[s[i].0@] == s[i].1,
    decreases s.len(),
{
    if i == s.len() - 1 {
    } else {
        assert(forall|p: int, q: int|
            0 <= p < q < s.drop_last().len() ==> s.drop_last()[p].0@ != s.drop_last()[q].0@);
        lemma_entries_map_value(s.drop_last(), i);
        assert(s.last().0@ != s[i].0@);
    }
}

impl PoolRegistry {
    /// The registry as a map from identifier to pool handle.
    pub closed spec fn view(&self) -> Map<Seq<char>, u64> {
        entries_map(self.entries@)
    }

    /// Internal validity: no identifier occurs twice.
    pub closed spec fn wf(&self) -> bool {
        forall|p: int, q: int|
            0 <= p < q < self.entries@.len() ==> self.entries@[p].0@ != self.entries@[q].0@
    }

    /// An empty registry.
    pub fn new() -> (r: PoolRegistry)
        ensures
            r.wf(),
            r@ == Map::<Seq<char>, u64>::empty(),
    {
        PoolRegistry { entries: Vec::new() }
    }

    /// Find the entry carrying this identifier, if any.
    fn find(&self, identifier: &String) -> (r: Option<usize>)
        requires
            self.wf(),
        ensures
            match r {
                Some(i) => i < self.entries@.len() && self.entries@[i as int].0@ == identifier@
                    && self@.contains_key(identifier@) && self@[identifier@]
                    == self.entries@[i as int].1,
                None => !self@.contains_key(identifier@),
            },
    {
        let n = self.entries.len();
        let mut i: usize = 0;
        while i < n
            invariant
                n == self.entries@.len(),
                0 <= i <= n,
                self.wf(),
                forall|j: int| 0 <= j < i ==> self.entries@[j].0@ != identifier@,
            decreases n - i,
        {
            if self.entries[i].0 == *identifier {
                proof {
                    lemma_entries_map_value(self.entries@, i as int);
                }
                return Some(i);
            }
            i += 1;
        }
        proof {
            lemma_entries_map_domain(self.entries@, identifier@);
        }
        None
    }

    /// Look up the pool handle cached for an identifier. No connect is owed
    /// here: a missing identifier is reported as such, and the caller decides
    /// whether to open a pool.
    pub fn lookup(&self, identifier: &String) -> (r: Option<u64>)
        requires
            self.wf(),
        ensures
            r == (if self@.contains_key(identifier@) {
                Some(self@[identifier@])
            } else {
                None::<u64>
            }),
    {
        match self.find(identifier) {
            Some(i) => Some(self.entries[i].1),
            None => None,
        }
    }

    /// Store the pool handle for an identifier, overwriting any handle a
    /// racing creation stored meanwhile (the last insertion wins).
    pub fn insert(&mut self, identifier: String, handle: u64)
        requires
            old(self).wf(),
        ensures
            final(self).wf(),
            final(self)@ == old(self)@.insert(identifier@, handle),
    {
        let ghost pre = self.entries@;
        match self.find(&identifier) {
            Some(i) => {
                proof {
                    lemma_update_entry(pre, i as int, identifier, handle);
                }
                self.entries[i] = (identifier, handle);
            },
            None => {
                self.entries.push((identifier, handle));
                proof {
                    assert(self.entries@.drop_last() =~= pre);
                    lemma_entries_map_domain(pre, self.entries@.last().0@);
                }
            },
        }
    }
}

/// Overwriting the entry at position `i` with an identifier of the same
/// characters updates the map at that identifier and nothing else, and keeps
/// identifiers distinct.
proof fn lemma_update_entry(s: Seq<(String, u64)>, i: int, id: String, handle: u64)
    requires
        forall|p: int, q: int| 0 <= p < q < s.len() ==> s[p].0@ != s[q].0@,
        0 <= i < s.len(),
        id@ == s[i].0@,
    ensures
        forall|p: int, q: int|
            0 <= p < q < s.len() ==> s.update(i, (id, handle))[p].0@ != s.update(
                i,
                (id, handle),
            )[q].0@,
        entries_map(s.update(i, (id, handle))) == entries_map(s).insert(s[i].0@, handle),
    decreases s.len(),
{
    let t = s.update(i, (id, handle));
    assert(forall|j: int| 0 <= j < s.len() ==> t[j].0@ == s[j].0@);
    if i == s.len() - 1 {
        assert(t.drop_last() =~= s.drop_last());
        assert(t.last() == (id, handle));
        assert(entries_map(t) =~= entries_map(s).insert(s[i].0@, handle));
    } else {
        assert(forall|p: int, q: int|
            0 <= p < q < s.drop_last().len() ==> s.drop_last()[p].0@ != s.drop_last()[q].0@);
        assert(t.drop_last() =~= s.drop_last().update(i, (id, handle)));
        lemma_update_entry(s.drop_last(), i, id, handle);
        assert(t.last() == s.last());
        assert(s.last().0@ != s[i].0@);
        assert(entries_map(t) =~= entries_map(s).insert(s[i].0@, handle));
    }
}

} // verus!
