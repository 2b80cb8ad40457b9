//! Progress accounting for the run: two independent monotone counters,
//! posts and reactions, each against a total fetched once at the start.
//! A counter is incremented exactly once per successfully written
//! primary record. Display only — never consulted for correctness.

use vstd::prelude::*;

verus! {

/// The run's progress state: how many posts and reactions have been
/// migrated, against the precomputed totals.
#[derive(Clone, Copy, Debug, PartialEq, Eq, Structural)]
pub struct ProgressTracker {
    pub posts_done: u64,
    pub posts_total: u64,
    pub reactions_done: u64,
    pub reactions_total: u64,
}

impl ProgressTracker {
    /// Starts the accounting for a run over the given totals, with
    /// nothing migrated yet.
    pub fn new(posts_total: u64, reactions_total: u64) -> (t: ProgressTracker)
        ensures
            t.posts_done == 0,
            t.reactions_done == 0,
            t.posts_total == posts_total,
            t.reactions_total == reactions_total,
    {
        ProgressTracker { posts_done: 0, posts_total, reactions_done: 0, reactions_total }
    }

    /// Accounts one successfully written canonical post record: the
    /// post counter grows by exactly one and nothing else moves.
    pub fn record_post(&mut self)
        requires
            old(self).posts_done < u64::MAX,
        ensures
            final(self).posts_done == old(self).posts_done + 1,
            final(self).posts_total == old(self).posts_total,
            final(self).reactions_done == old(self).reactions_done,
            final(self).reactions_total == old(self).reactions_total,
    {
        self.posts_done = self.posts_done + 1;
    }

    /// Accounts one successfully written reaction record: the reaction
    /// counter grows by exactly one and nothing else moves.
    pub fn record_reaction(&mut self)
        requires
            old(self).reactions_done < u64::MAX,
        ensures
            final(self).reactions_done == old(self).reactions_done + 1,
            final(self).reactions_total == old(self).reactions_total,
            final(self).posts_done == old(self).posts_done,
            final(self).posts_total == old(self).posts_total,
    {
        self.reactions_done = self.reactions_done + 1;
    }

    /// Whether every counted unit of work has been accounted for.
    pub fn complete(&self) -> (r: bool)
        ensures
            r <==> (self.posts_done >= self.posts_total
                && self.reactions_done >= self.reactions_total),
    {
        self.posts_done >= self.posts_total && self.reactions_done >= self.reactions_total
    }
}

} // verus!
