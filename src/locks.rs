//! Exclusive access to snapshot files: a commit or a load of a snapshot
//! path runs only while it holds that path here.
use crate::vault::bytes_eq;
use vstd::prelude::*;

verus! {

/// The snapshot paths currently taken, each by exactly one request.
pub struct PathLocks {
    held: Vec<Vec<u8>>,
}

proof fn lemma_remove_distinct(s: Seq<Seq<u8>>, i: int)
    requires
        s.no_duplicates(),
        0 <= i < s.len(),
    ensures
        s.remove(i).no_duplicates(),
        s.remove(i).to_set() == s.to_set().remove(s[i]),
{
    let r = s.remove(i);
    assert forall|a: int, b: int| 0 <= a < b < r.len() implies r[a] != r[b] by {
        let sa = if a < i { a } else { a + 1 };
        let sb = if b < i { b } else { b + 1 };
        assert(r[a] == s[sa] && r[b] == s[sb]);
    }
    assert forall|y: Seq<u8>| r.to_set().contains(y) <==> s.to_set().remove(s[i]).contains(y) by {
        if r.contains(y) {
            let j = choose|j: int| 0 <= j < r.len() && r[j] == y;
            let sj = if j < i { j } else { j + 1 };
            assert(s[sj] == y);
            assert(s.contains(y));
        }
        if s.contains(y) && y != s[i] {
            let j = choose|j: int| 0 <= j < s.len() && s[j] == y;
            let rj = if j < i { j } else { j - 1 };
            assert(r[rj] == y);
        }
    }
    assert(r.to_set() =~= s.to_set().remove(s[i]));
}

impl PathLocks {
    /// The paths held, in the order they were taken.
    closed spec fn paths(&self) -> Seq<Seq<u8>> {
        self.held@.map_values(|v: Vec<u8>| v@)
    }

    /// The set of paths taken.
    pub closed spec fn view(&self) -> Set<Seq<u8>> {
        self.paths().to_set()
    }

    /// The table's own invariant: no path is recorded twice.
    pub closed spec fn wf(&self) -> bool {
        self.paths().no_duplicates()
    }

    /// A table with no path taken.
    pub fn new() -> (r: PathLocks)
        ensures
            r.wf(),
            r.view() == Set::<Seq<u8>>::empty(),
    {
        let r = PathLocks { held: Vec::new() };
        assert(r.paths() =~= Seq::<Seq<u8>>::empty());
        assert(r.view() =~= Set::<Seq<u8>>::empty());
        r
    }

    fn index_of(&self, path: &Vec<u8>) -> (r: Option<usize>)
        ensures
            r is None ==> !self.paths().contains(path@),
            r is Some ==> r->Some_0 < self.held@.len() && self.paths()[r->Some_0 as int] == path@,
    {
        let mut i: usize = 0;
        while i < self.held.len()
            invariant
                i <= self.held@.len(),
                forall|j: int| 0 <= j < i ==> self.paths()[j] != path@,
            decreases self.held@.len() - i,
        {
            if bytes_eq(&self.held[i], path) {
                return Some(i);
            }
            i = i + 1;
        }
        None
    }

    /// Whether `path` is taken.
    pub fn is_locked(&self, path: &Vec<u8>) -> (r: bool)
        ensures
            r == self.view().contains(path@),
    {
        match self.index_of(path) {
            Some(_) => true,
            None => false,
        }
    }

    /// Takes `path` if it is free. Returns whether it was taken by this call;
    /// a path already taken is left as it is.
    pub fn try_acquire(&mut self, path: &Vec<u8>) -> (r: bool)
        requires
            old(self).wf(),
        ensures
            final(self).wf(),
            r == !old(self).view().contains(path@),
            final(self).view() == old(self).view().insert(path@),
    {
        if self.index_of(path).is_some() {
            assert(self.view().insert(path@) =~= self.view());
            return false;
        }
        let ghost before = self.paths();
        self.held.push(path.clone());
        assert(self.paths() =~= before.push(path@));
        proof { before.lemma_push_to_set_commute(path@); }
        true
    }

    /// Gives `path` back. Returns whether it had been taken.
    pub fn release(&mut self, path: &Vec<u8>) -> (r: bool)
        requires
            old(self).wf(),
        ensures
            final(self).wf(),
            r == old(self).view().contains(path@),
            final(self).view() == old(self).view().remove(path@),
    {
        match self.index_of(path) {
            None => {
                assert(self.view().remove(path@) =~= self.view());
                false
            },
            Some(i) => {
                let ghost before = self.paths();
                self.held.remove(i);
                assert(self.paths() =~= before.remove(i as int));
                proof { lemma_remove_distinct(before, i as int); }
                true
            },
        }
    }
}

} // verus!
