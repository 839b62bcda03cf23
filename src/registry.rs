use vstd::prelude::*;
use crate::text::same_text;

verus! {

/// The position of the first record from `i` on whose path is exactly `path`.
pub open spec fn resolve_from(paths: Seq<Seq<char>>, path: Seq<char>, i: int) -> Option<int>
    decreases paths.len() - i,
{
    if i < 0 || i >= paths.len() {
        None
    } else if paths[i] == path {
        Some(i)
    } else {
        resolve_from(paths, path, i + 1)
    }
}

/// The record that a request for `path` goes to: the first with that exact path.
pub open spec fn resolve_spec(paths: Seq<Seq<char>>, path: Seq<char>) -> Option<int> {
    resolve_from(paths, path, 0)
}

/// The result of a lookup, as a position.
pub open spec fn opt_index(r: Option<usize>) -> Option<int> {
    match r {
        Some(i) => Some(i as int),
        None => None,
    }
}

/// The table of handlers: each record pairs a route path with an entry point.
/// Records are only ever added, and kept in the order they were added.
pub struct Registry<E> {
    pub records: Vec<(String, E)>,
}

impl<E> Registry<E> {
    /// The route paths, in registration order.
    pub open spec fn paths(&self) -> Seq<Seq<char>> {
        self.records@.map_values(|r: (String, E)| r.0@)
    }

    pub fn new() -> (r: Registry<E>)
        ensures
            r.paths() == Seq::<Seq<char>>::empty(),
    {
        let r = Registry { records: Vec::new() };
        assert(r.paths() =~= Seq::<Seq<char>>::empty());
        r
    }

    /// Adds a record after those already there.
    pub fn register(&mut self, path: &str, entry: E)
        ensures
            final(self).paths() == old(self).paths().push(path@),
            final(self).records@.last().1 == entry,
            final(self).records@.len() == old(self).records@.len() + 1,
            forall|i: int|
                0 <= i < old(self).records@.len() ==> final(self).records@[i] == old(
                    self,
                ).records@[i],
    {
        let ghost before = self.records@;
        self.records.push((path.to_owned(), entry));
        assert(self.paths() =~= before.map_values(|r: (String, E)| r.0@).push(path@));
    }

    pub fn len(&self) -> (r: usize)
        ensures
            r == self.records@.len(),
    {
        self.records.len()
    }

    /// The record a request for `path` goes to: the first whose path equals
    /// `path` exactly, or none.
    pub fn resolve(&self, path: &str) -> (r: Option<usize>)
        ensures
            opt_index(r) == resolve_spec(self.paths(), path@),
            r matches Some(i) ==> i < self.records@.len(),
    {
        let ghost ps = self.paths();
        let mut i: usize = 0;
        while i < self.records.len()
            invariant
                i <= self.records@.len(),
                ps == self.paths(),
                resolve_from(ps, path@, 0) == resolve_from(ps, path@, i as int),
            decreases self.records@.len() - i,
        {
            if same_text(self.records[i].0.as_str(), path) {
                return Some(i);
            }
            i += 1;
        }
        None
    }

    /// The entry point of record `i`.
    pub fn entry(&self, i: usize) -> (r: &E)
        requires
            i < self.records@.len(),
        ensures
            *r == self.records@[i as int].1,
    {
        &self.records[i].1
    }
}

/// What `resolve_from` finds is a match, and nothing before it matches.
pub proof fn lemma_resolve_from(paths: Seq<Seq<char>>, path: Seq<char>, i: int)
    requires
        0 <= i,
    ensures
        match resolve_from(paths, path, i) {
            Some(k) => i <= k < paths.len() && paths[k] == path && forall|j: int|
                i <= j < k ==> paths[j] != path,
            None => forall|j: int| i <= j < paths.len() ==> paths[j] != path,
        },
    decreases paths.len() - i,
{
    if i < paths.len() && paths[i] != path {
        lemma_resolve_from(paths, path, i + 1);
    }
}

/// A request to a registered path goes to the first record registered under
/// exactly that path; a request to any path that equals no registered path
/// (a prefix, a suffix, another case) finds no record.
pub proof fn lemma_exact_dispatch(paths: Seq<Seq<char>>, path: Seq<char>)
    ensures
        (exists|i: int| 0 <= i < paths.len() && paths[i] == path) ==> {
            &&& resolve_spec(paths, path) matches Some(k)
            &&& paths[k] == path
            &&& forall|j: int| 0 <= j < k ==> paths[j] != path
        },
        (forall|i: int| 0 <= i < paths.len() ==> paths[i] != path) ==> resolve_spec(paths, path)
            is None,
{
    lemma_resolve_from(paths, path, 0);
}

/// Resolving the same path twice against an unchanged registry gives the
/// same record both times.
pub proof fn lemma_resolve_twice<E>(reg: Registry<E>, path: Seq<char>, r1: Option<usize>, r2: Option<usize>)
    requires
        opt_index(r1) == resolve_spec(reg.paths(), path),
        opt_index(r2) == resolve_spec(reg.paths(), path),
    ensures
        r1 == r2,
{
}

} // verus!
