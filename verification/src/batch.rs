//! Updating every installed mod of a game in one pass.
//!
//! The batch walks the game's mods in registry order and records one result
//! per mod. A failure for one mod is recorded like any other result and the
//! batch moves on: it never abandons the mods after it, and the caller gets
//! a full per-mod summary instead of the first error.

use vstd::prelude::*;

use crate::engine::Outcome;
use crate::errors::SyncError;
use crate::registry::Game;
use crate::registry::ModModel;

verus! {

/// The recorded result of one mod's update attempt.
#[derive(Clone, Copy, Debug)]
pub struct BatchReport {
    /// The mod the attempt was for.
    pub id: u64,
    /// How it ended.
    pub outcome: Result<Outcome, SyncError>,
}

/// The identifiers of the entries, in registry order.
pub open spec fn mod_ids(mods: Seq<ModModel>) -> Seq<u64> {
    Seq::new(mods.len(), |i: int| mods[i].id)
}

/// One pass over a game's mods, with the results gathered so far.
pub struct Batch {
    /// The mods to attempt, fixed when the batch begins.
    pub ids: Vec<u64>,
    /// How many attempts are already recorded.
    pub next: usize,
    /// One report per finished attempt, in order.
    pub reports: Vec<BatchReport>,
}

impl Batch {
    /// The batch's integrity rule: reports cover exactly the first `next`
    /// identifiers, in order.
    pub open spec fn wf(&self) -> bool {
        self.next <= self.ids@.len() && self.reports@.len() == self.next && (forall|i: int|
            0 <= i < self.next ==> self.reports@[i].id == self.ids@[i])
    }

    /// Starts a batch over every mod the game currently lists, in order.
    pub fn begin(game: &Game) -> (b: Batch)
        ensures
            b.wf(),
            b.next == 0,
            b.ids@ == mod_ids(game.mods.deep_view()),
    {
        let n = game.mods.len();
        let mut ids: Vec<u64> = Vec::new();
        let mut i: usize = 0;
        while i < n
            invariant
                i <= n,
                n == game.mods.deep_view().len(),
                ids@.len() == i,
                forall|k: int| 0 <= k < i ==> ids@[k] == game.mods.deep_view()[k].id,
            decreases n - i,
        {
            ids.push(game.mods[i].id);
            i = i + 1;
        }
        proof {
            assert(ids@ =~= mod_ids(game.mods.deep_view()));
        }
        Batch { ids, next: 0, reports: Vec::new() }
    }

    /// The identifier to attempt next, or nothing when the batch is done.
    pub fn pending(&self) -> (r: Option<u64>)
        ensures
            r is Some <==> self.next < self.ids@.len(),
            r is Some ==> r->0 == self.ids@[self.next as int],
    {
        if self.next < self.ids.len() {
            Some(self.ids[self.next])
        } else {
            None
        }
    }

    /// Records the finished attempt for the pending mod and moves on — a
    /// failed attempt exactly like a successful one, so the mods after a
    /// failure are still attempted.
    pub fn record(&mut self, outcome: Result<Outcome, SyncError>)
        requires
            old(self).wf(),
            old(self).next < old(self).ids@.len(),
        ensures
            final(self).wf(),
            final(self).ids@ == old(self).ids@,
            final(self).next == old(self).next + 1,
            final(self).reports@ == old(self).reports@.push(
                BatchReport { id: old(self).ids@[old(self).next as int], outcome },
            ),
    {
        let n = self.ids.len();
        let id = self.ids[self.next];
        self.reports.push(BatchReport { id, outcome });
        proof {
            assert(self.next < n);
        }
        self.next = self.next + 1;
    }
}

/// Law: a finished batch holds one report per mod, in registry order — in
/// particular, a failure in the middle left a report for every mod before
/// and after it.
pub proof fn lemma_batch_reports_all(b: &Batch)
    requires
        b.wf(),
        b.next == b.ids@.len(),
    ensures
        b.reports@.len() == b.ids@.len(),
        forall|i: int| 0 <= i < b.ids@.len() ==> b.reports@[i].id == b.ids@[i],
{
}

} // verus!
