//! The job table: the dispatcher's record of in-flight files. It maps each
//! active path to the opaque handle used to forward events to that path's
//! worker, and holds at most one live entry per path.

use vstd::prelude::*;

verus! {

/// One live entry: an active path and the handle of its worker.
#[derive(Debug, Clone)]
pub struct JobEntry {
    pub path: String,
    pub handle: u64,
}

/// The table of in-flight jobs. Exclusively owned and mutated by the
/// dispatcher; workers never touch it.
#[derive(Debug)]
pub struct JobTable {
    pub entries: Vec<JobEntry>,
}

impl JobTable {
    /// Well-formedness: at most one live entry per path.
    pub open spec fn wf(self) -> bool {
        forall|i: int, j: int|
            0 <= i < j < self.entries@.len() ==> self.entries@[i].path@ != self.entries@[j].path@
    }

    /// How many jobs are live.
    pub open spec fn spec_len(self) -> nat {
        self.entries@.len()
    }

    /// Whether some live entry is for `p`.
    pub open spec fn contains_path(self, p: Seq<char>) -> bool {
        exists|i: int| 0 <= i < self.entries@.len() && self.entries@[i].path@ == p
    }

    /// The index of the live entry for `p`; meaningful when `contains_path(p)`
    /// holds, and then unique in a well-formed table.
    pub open spec fn spec_index_of(self, p: Seq<char>) -> int {
        choose|i: int| 0 <= i < self.entries@.len() && self.entries@[i].path@ == p
    }

    /// The handle recorded for `p`; meaningful when `contains_path(p)` holds.
    pub open spec fn spec_handle_of(self, p: Seq<char>) -> u64 {
        self.entries@[self.spec_index_of(p)].handle
    }

    /// An empty table.
    pub fn new() -> (t: JobTable)
        ensures
            t.wf(),
            t.spec_len() == 0,
            forall|q: Seq<char>| !t.contains_path(q),
    {
        JobTable { entries: Vec::new() }
    }

    /// The number of live entries.
    pub fn len(&self) -> (n: usize)
        ensures
            n == self.spec_len(),
    {
        self.entries.len()
    }

    /// The index of the entry for `path`, if one is live.
    fn index_of(&self, path: &String) -> (r: Option<usize>)
        ensures
            match r {
                Some(i) => i < self.entries@.len() && self.entries@[i as int].path@ == path@,
                None => !self.contains_path(path@),
            },
    {
        let n = self.entries.len();
        let mut i: usize = 0;
        while i < n
            invariant
                n == self.entries@.len(),
                i <= n,
                forall|k: int| 0 <= k < i ==> self.entries@[k].path@ != path@,
            decreases n - i,
        {
            if self.entries[i].path == *path {
                return Some(i);
            }
            i += 1;
        }
        None
    }

    /// Whether a live entry for `path` exists.
    pub fn contains(&self, path: &String) -> (r: bool)
        ensures
            r == self.contains_path(path@),
    {
        self.index_of(path).is_some()
    }

    /// The handle of the live entry for `path`, if any.
    pub fn get(&self, path: &String) -> (r: Option<u64>)
        requires
            self.wf(),
        ensures
            match r {
                Some(h) => self.contains_path(path@) && h == self.spec_handle_of(path@),
                None => !self.contains_path(path@),
            },
    {
        match self.index_of(path) {
            Some(i) => {
                proof {
                    let j = self.spec_index_of(path@);
                    assert(self.entries@[j].path@ == path@);
                    assert(j == i);
                }
                Some(self.entries[i].handle)
            },
            None => None,
        }
    }

    /// Record a live entry for a previously absent path.
    pub fn insert(&mut self, path: String, handle: u64)
        requires
            old(self).wf(),
            !old(self).contains_path(path@),
        ensures
            final(self).wf(),
            final(self).entries@ == old(self).entries@.push(JobEntry { path, handle }),
            final(self).spec_len() == old(self).spec_len() + 1,
            final(self).contains_path(path@),
            final(self).spec_handle_of(path@) == handle,
            forall|q: Seq<char>|
                q != path@ ==> final(self).contains_path(q) == old(self).contains_path(q),
            forall|q: Seq<char>|
                q != path@ && old(self).contains_path(q) ==> final(self).spec_handle_of(q)
                    == old(self).spec_handle_of(q),
    {
        let ghost pre = *self;
        let ghost p = path@;
        self.entries.push(JobEntry { path, handle });
        proof {
            let post = *self;
            let n = pre.entries@.len() as int;
            assert(post.entries@[n].path@ == p);
            assert forall|q: Seq<char>| q != p implies post.contains_path(q)
                == pre.contains_path(q) by {
                if post.contains_path(q) {
                    let i = choose|i: int|
                        0 <= i < post.entries@.len() && post.entries@[i].path@ == q;
                    assert(i < n && pre.entries@[i].path@ == q);
                }
                if pre.contains_path(q) {
                    let i = choose|i: int| 0 <= i < pre.entries@.len() && pre.entries@[i].path@ == q;
                    assert(post.entries@[i].path@ == q);
                }
            }
            assert forall|q: Seq<char>|
                q != p && pre.contains_path(q) implies post.spec_handle_of(q)
                == pre.spec_handle_of(q) by {
                let i = post.spec_index_of(q);
                let j = pre.spec_index_of(q);
                assert(pre.entries@[j].path@ == q);
                assert(post.entries@[j].path@ == q);
                assert(0 <= i < post.entries@.len() && post.entries@[i].path@ == q);
                assert(i < n);
                assert(i == j);
            }
        }
    }

    /// Reclaim the slot for `path`: remove its entry if one is live, and do
    /// nothing otherwise. Removal shrinks the table by exactly one; an absent
    /// path leaves it untouched.
    pub fn remove(&mut self, path: &String) -> (removed: bool)
        requires
            old(self).wf(),
        ensures
            final(self).wf(),
            removed == old(self).contains_path(path@),
            removed ==> final(self).spec_len() == old(self).spec_len() - 1,
            !removed ==> *final(self) == *old(self),
            !final(self).contains_path(path@),
            forall|q: Seq<char>|
                q != path@ ==> final(self).contains_path(q) == old(self).contains_path(q),
            forall|q: Seq<char>|
                q != path@ && old(self).contains_path(q) ==> final(self).spec_handle_of(q)
                    == old(self).spec_handle_of(q),
    {
        let ghost pre = *self;
        let ghost p = path@;
        match self.index_of(path) {
            Some(i) => {
                self.entries.remove(i);
                proof {
                    let post = *self;
                    let n = pre.entries@.len() as int;
                    let i = i as int;
                    assert(post.entries@ == pre.entries@.subrange(0, i) + pre.entries@.subrange(
                        i + 1,
                        n,
                    ));
                    assert forall|k: int| 0 <= k < post.entries@.len() implies post.entries@[k]
                        == pre.entries@[if k < i {
                        k
                    } else {
                        k + 1
                    }] by {}
                    assert forall|k: int| 0 <= k < post.entries@.len() implies post.entries@[k].path@
                        != p by {
                        let k0: int = if k < i {
                            k
                        } else {
                            k + 1
                        };
                        assert(post.entries@[k] == pre.entries@[k0]);
                        assert(pre.entries@[i].path@ == p);
                        if k0 != i {
                            assert(pre.entries@[k0].path@ != pre.entries@[i].path@);
                        }
                    }
                    assert forall|q: Seq<char>| q != p implies post.contains_path(q)
                        == pre.contains_path(q) by {
                        if post.contains_path(q) {
                            let k = choose|k: int|
                                0 <= k < post.entries@.len() && post.entries@[k].path@ == q;
                            let k0: int = if k < i {
                                k
                            } else {
                                k + 1
                            };
                            assert(pre.entries@[k0].path@ == q);
                        }
                        if pre.contains_path(q) {
                            let k0 = choose|k0: int|
                                0 <= k0 < pre.entries@.len() && pre.entries@[k0].path@ == q;
                            let k: int = if k0 < i {
                                k0
                            } else {
                                k0 - 1
                            };
                            assert(k0 != i);
                            assert(post.entries@[k].path@ == q);
                        }
                    }
                    assert forall|q: Seq<char>|
                        q != p && pre.contains_path(q) implies post.spec_handle_of(q)
                        == pre.spec_handle_of(q) by {
                        let a = post.spec_index_of(q);
                        let b = pre.spec_index_of(q);
                        assert(pre.entries@[b].path@ == q);
                        assert(0 <= a < post.entries@.len() && post.entries@[a].path@ == q);
                        let a0: int = if a < i {
                            a
                        } else {
                            a + 1
                        };
                        assert(post.entries@[a] == pre.entries@[a0]);
                        assert(a0 == b);
                    }
                }
                true
            },
            None => false,
        }
    }
}

/// No two live entries of a well-formed job table are for the same path: the
/// table never holds two entries for one file.
pub proof fn lemma_unique_live_entry(t: JobTable, i: int, j: int)
    requires
        t.wf(),
        0 <= i < t.entries@.len(),
        0 <= j < t.entries@.len(),
        i != j,
    ensures
        t.entries@[i].path@ != t.entries@[j].path@,
{
}

} // verus!
