//! The periodic synchronization that feeds the catalog. One cycle asks every
//! registered provider, in order, to synchronize; a failing provider is
//! recorded and skipped, so it never aborts the cycle. Running the cycle
//! every period is left to the caller.

use crate::library::InMemoryLibrary;
use crate::provider::{ProviderInstance, SyncError, SyncResult};
use vstd::prelude::*;

verus! {

/// Seconds between two cycles.
pub const SYNC_INTERVAL_SECS: u64 = 300;

/// The positions `0, 1, ..., n - 1`: one call per provider, in order.
pub open spec fn each_once(n: int) -> Seq<int> {
    Seq::new(n as nat, |i: int| i)
}

/// The registered providers, and a record of every synchronization call
/// made on them so far, by provider position.
pub struct SyncScheduler<P> {
    providers: Vec<P>,
    calls: Ghost<Seq<int>>,
}

impl<P: ProviderInstance> SyncScheduler<P> {
    /// Positions of the providers asked to synchronize so far, in call order.
    pub closed spec fn registered(&self) -> Seq<P> {
        self.providers@
    }

    pub closed spec fn calls(&self) -> Seq<int> {
        self.calls@
    }

    pub fn new(providers: Vec<P>) -> (r: SyncScheduler<P>)
        ensures
            r.registered() == providers@,
            r.calls() == Seq::<int>::empty(),
    {
        SyncScheduler { providers, calls: Ghost(Seq::empty()) }
    }

    /// Runs one cycle: every provider, in order, synchronizes once into the
    /// catalog. The outcome of each provider stands at its position; a
    /// failure is recorded there and the cycle goes on.
    pub fn run_cycle(&mut self, library: &mut InMemoryLibrary) -> (r: Vec<Result<SyncResult, SyncError>>)
        ensures
            r@.len() == old(self).registered().len(),
            final(self).registered().len() == old(self).registered().len(),
            final(self).calls() == old(self).calls() + each_once(old(self).registered().len() as int),
    {
        let ghost start = self.calls@;
        let mut outcomes: Vec<Result<SyncResult, SyncError>> = Vec::new();
        let mut i: usize = 0;
        while i < self.providers.len()
            invariant
                i <= self.providers@.len(),
                self.providers@.len() == old(self).providers@.len(),
                start == old(self).calls@,
                self.calls@ == start + each_once(i as int),
                outcomes@.len() == i,
            decreases self.providers@.len() - i,
        {
            let outcome = self.providers[i].sync(library);
            proof {
                self.calls@ = self.calls@.push(i as int);
                assert(each_once(i + 1) =~= each_once(i as int).push(i as int));
                assert(start + each_once(i + 1) =~= (start + each_once(i as int)).push(i as int));
            }
            outcomes.push(outcome);
            i = i + 1;
        }
        outcomes
    }
}

} // verus!
