//! The state-synchronization shim.
//!
//! A generic snapshot restore copies stored values, but not memoized
//! "changed since last tick" flags that consumers built on top of them.
//! After a restore such derived state is stale, so it is force-invalidated
//! every tick for every rollback-tracked entity, unconditionally: repeated
//! recomputation is traded for correctness.

use vstd::prelude::*;

verus! {

use crate::world::World;

/// The consumer-side change flags for the tracked entities, in creation
/// order: `changed[k]` tells downstream fast paths whether entity `k` needs
/// recomputation.
#[derive(Debug)]
pub struct ChangeFlags {
    pub changed: Vec<bool>,
}

impl ChangeFlags {
    /// Every tracked entity marked dirty.
    pub open spec fn all_dirty(self) -> bool {
        forall|k: int| 0 <= k < self.changed@.len() ==> self.changed@[k] == true
    }

    /// Fresh flags for the tracked entities of `w`, all dirty.
    pub fn for_world(w: &World) -> (r: ChangeFlags)
        ensures
            r.changed@.len() == w@.bodies.len(),
            r.all_dirty(),
    {
        let mut changed: Vec<bool> = Vec::new();
        let mut k: usize = 0;
        let n = w.bodies.len();
        while k < n
            invariant
                k <= n,
                changed@.len() == k,
                forall|j: int| 0 <= j < k ==> changed@[j] == true,
            decreases n - k,
        {
            changed.push(true);
            k = k + 1;
        }
        ChangeFlags { changed }
    }

    /// Force-marks every tracked entity dirty.  Called every tick, whether
    /// or not a restore happened: dependent systems then recompute instead
    /// of skipping on stale memoization.
    pub fn force_mark_all(&mut self)
        ensures
            final(self).changed@.len() == old(self).changed@.len(),
            final(self).all_dirty(),
    {
        let n = self.changed.len();
        let mut k: usize = 0;
        while k < n
            invariant
                k <= n,
                n == self.changed@.len(),
                forall|j: int| 0 <= j < k ==> self.changed@[j] == true,
            decreases n - k,
        {
            self.changed.set(k, true);
            k = k + 1;
        }
    }
}

} // verus!
