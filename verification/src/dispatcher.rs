//! The dispatcher: sole owner of the job table and the authoritative routing
//! decision for every event. The surrounding event loop waits on the two
//! inbound channels, asks `route` what to do with each event, and carries the
//! decision out (spawn a worker, forward a chunk, report an outcome).

use vstd::prelude::*;

use crate::event::DocEvent;
use crate::table::JobTable;

verus! {

/// What the event loop must do with one event.
#[derive(Debug, Clone, Copy, PartialEq, Eq, Structural)]
pub enum Route {
    /// A new worker was recorded under this handle; spawn it and start it.
    Spawned(u64),
    /// A `Created` event for a path already in flight: a duplicate
    /// notification for an in-progress upload, ignored.
    DuplicateCreated,
    /// Forward the chunk to the worker recorded under this handle.
    Forward(u64),
    /// A chunk for a path with no active worker: a benign race with a
    /// completing file. Log it and drop it.
    Stray,
    /// A terminal outcome reclaimed the path's slot; report it.
    Reclaimed,
    /// A terminal outcome for a path no longer in the table: a no-op.
    AlreadyGone,
}

/// The central coordinator. It runs as a single logical thread of control:
/// nothing else reads or writes the job table.
#[derive(Debug)]
pub struct Dispatcher {
    pub table: JobTable,
}

impl Dispatcher {
    /// Well-formedness: the job table holds at most one live entry per path.
    pub open spec fn wf(self) -> bool {
        self.table.wf()
    }

    /// A dispatcher with no job in flight.
    pub fn new() -> (d: Dispatcher)
        ensures
            d.wf(),
            d.table.spec_len() == 0,
            forall|q: Seq<char>| !d.table.contains_path(q),
    {
        Dispatcher { table: JobTable::new() }
    }

    /// How many jobs are in flight.
    pub fn pending(&self) -> (n: usize)
        ensures
            n == self.table.spec_len(),
    {
        self.table.len()
    }

    /// Route one event:
    /// - `Created(p)` for an absent path records `fresh_handle` for `p` and
    ///   asks for a worker spawn; for a path already in flight it is ignored.
    /// - `Chunk(p)` is forwarded to the recorded handle if `p` is in flight,
    ///   and dropped as a stray otherwise; the table is never changed.
    /// - `Done(p)` and `Failed(p)` reclaim `p`'s slot: the entry is removed
    ///   if present (shrinking the table by exactly one) and the removal of
    ///   an absent path is a no-op. Either way `p` is absent afterwards, and
    ///   every other path's entry is untouched.
    pub fn route(&mut self, event: DocEvent, fresh_handle: u64) -> (r: Route)
        requires
            old(self).wf(),
        ensures
            final(self).wf(),
            match event {
                DocEvent::Created(p) => if old(self).table.contains_path(p@) {
                    r == Route::DuplicateCreated && *final(self) == *old(self)
                } else {
                    &&& r == Route::Spawned(fresh_handle)
                    &&& final(self).table.contains_path(p@)
                    &&& final(self).table.spec_handle_of(p@) == fresh_handle
                    &&& final(self).table.spec_len() == old(self).table.spec_len() + 1
                    &&& (forall|q: Seq<char>|
                        q != p@ ==> final(self).table.contains_path(q)
                            == old(self).table.contains_path(q))
                    &&& (forall|q: Seq<char>|
                        q != p@ && old(self).table.contains_path(q)
                            ==> final(self).table.spec_handle_of(q)
                            == old(self).table.spec_handle_of(q))
                },
                DocEvent::Chunk(p) => *final(self) == *old(self)
                    && if old(self).table.contains_path(p@) {
                    r == Route::Forward(old(self).table.spec_handle_of(p@))
                } else {
                    r == Route::Stray
                },
                DocEvent::Done(p) => old(self).reclaim_spec(*final(self), p@, r),
                DocEvent::Failed(p) => old(self).reclaim_spec(*final(self), p@, r),
            },
    {
        match event {
            DocEvent::Created(path) => {
                if self.table.contains(&path) {
                    Route::DuplicateCreated
                } else {
                    self.table.insert(path, fresh_handle);
                    Route::Spawned(fresh_handle)
                }
            },
            DocEvent::Chunk(path) => match self.table.get(&path) {
                Some(handle) => Route::Forward(handle),
                None => Route::Stray,
            },
            DocEvent::Done(path) => if self.table.remove(&path) {
                Route::Reclaimed
            } else {
                Route::AlreadyGone
            },
            DocEvent::Failed(path) => if self.table.remove(&path) {
                Route::Reclaimed
            } else {
                Route::AlreadyGone
            },
        }
    }

    /// What reclaiming path `p` means: idempotent removal. If `p` was in
    /// flight its slot is freed and the table shrinks by exactly one; if not,
    /// nothing changes. Afterwards `p` is not in flight, and no other path's
    /// entry is disturbed.
    pub open spec fn reclaim_spec(self, post: Dispatcher, p: Seq<char>, r: Route) -> bool {
        &&& !post.table.contains_path(p)
        &&& if self.table.contains_path(p) {
            r == Route::Reclaimed && post.table.spec_len() == self.table.spec_len() - 1
        } else {
            r == Route::AlreadyGone && post == self
        }
        &&& forall|q: Seq<char>|
            q != p ==> post.table.contains_path(q) == self.table.contains_path(q)
        &&& forall|q: Seq<char>|
            q != p && self.table.contains_path(q) ==> post.table.spec_handle_of(q)
                == self.table.spec_handle_of(q)
    }
}

} // verus!
