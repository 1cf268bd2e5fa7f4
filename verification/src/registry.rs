//! The rollback-tracking registry: an explicit, documented allow-list
//! saying how the tracked state is snapshotted and which of its values
//! contribute to the desync checksum.
//!
//! Which state participates is configuration, not a fixed contract, so it
//! is carried as a value rather than hardcoded into the snapshot and
//! checksum routines.

use vstd::prelude::*;

verus! {

use crate::world::World;
use crate::world::Body;
use crate::world::Vec2i;

/// How a registered piece of state is captured into a snapshot.  Every
/// strategy must yield a faithful copy; they differ only in mechanism.
#[derive(Clone, Copy, PartialEq, Eq, Structural, Debug)]
pub enum SnapshotStrategy {
    /// Plain field copy of plain data.
    BitCopy,
    /// Explicit reconstruction of every field.
    DeepClone,
    /// A difference list against a base state, applied back onto a copy of
    /// the base.
    StructuralDiff,
}

/// The registration contract for the tracked state: the snapshot strategy,
/// and the allow-list of values contributing to the desync checksum.
#[derive(Clone, Copy, PartialEq, Eq, Structural, Debug)]
pub struct TrackingPlan {
    pub strategy: SnapshotStrategy,
    /// Whether each body's position feeds the checksum.
    pub checksum_position: bool,
    /// Whether each body's velocity feeds the checksum.
    pub checksum_velocity: bool,
}

impl TrackingPlan {
    /// The reference registration: bit-copy snapshots, positions checked.
    /// Checking positions alone is enough to catch a divergence; more
    /// values may be allowed in at registration time.
    pub open spec fn spec_default_plan() -> TrackingPlan {
        TrackingPlan { strategy: SnapshotStrategy::BitCopy, checksum_position: true, checksum_velocity: false }
    }

    /// Returns the reference registration.
    pub fn default_plan() -> (r: TrackingPlan)
        ensures
            r == TrackingPlan::spec_default_plan(),
    {
        TrackingPlan { strategy: SnapshotStrategy::BitCopy, checksum_position: true, checksum_velocity: false }
    }
}

/// Captures the tracked state by explicit reconstruction of every field.
fn deep_clone_world(w: &World) -> (r: World)
    ensures
        r@ == w@,
{
    let mut bodies: Vec<Body> = Vec::new();
    let mut i: usize = 0;
    while i < w.bodies.len()
        invariant
            i <= w.bodies@.len(),
            bodies@ =~= w.bodies@.take(i as int),
        decreases w.bodies@.len() - i,
    {
        let b = &w.bodies[i];
        bodies.push(
            Body {
                id: b.id,
                kind: b.kind,
                shape: b.shape,
                pos: Vec2i { x: b.pos.x, y: b.pos.y },
                vel: Vec2i { x: b.vel.x, y: b.vel.y },
            },
        );
        i = i + 1;
    }
    proof {
        assert(bodies@ =~= w.bodies@);
        assert((World { bodies, toggle: w.toggle })@ =~= w@);
    }
    World { bodies, toggle: w.toggle }
}

/// Captures the tracked state as a difference list against `base`, applied
/// back onto a copy of the base: the round trip of the structural-diff
/// strategy.  The two worlds must track the same entities.
fn structural_diff_world(base: &World, w: &World) -> (r: World)
    requires
        base@.bodies.len() == w@.bodies.len(),
    ensures
        r@ == w@,
{
    // The difference list: every creation index whose body changed, with
    // its new value.
    let mut diff: Vec<(usize, Body)> = Vec::new();
    let mut i: usize = 0;
    while i < w.bodies.len()
        invariant
            i <= w.bodies@.len(),
            base@.bodies.len() == w@.bodies.len(),
            forall|k: int| 0 <= k < diff@.len() ==> 0 <= (#[trigger] diff@[k]).0 < i,
            forall|k: int| 0 <= k < diff@.len() ==> diff@[k].1 == w.bodies@[diff@[k].0 as int],
            forall|j: int|
                0 <= j < i && base.bodies@[j] != w.bodies@[j] ==> exists|k: int|
                    0 <= k < diff@.len() && (#[trigger] diff@[k]).0 == j,
        decreases w.bodies@.len() - i,
    {
        let ghost diff0 = diff@;
        if w.bodies[i] != base.bodies[i] {
            diff.push((i, w.bodies[i]));
        }
        proof {
            assert forall|j: int|
                0 <= j < i + 1 && base.bodies@[j] != w.bodies@[j] implies exists|k: int|
                0 <= k < diff@.len() && (#[trigger] diff@[k]).0 == j by {
                if j == i {
                    assert(diff@[diff@.len() - 1].0 == i);
                } else {
                    let k = choose|k: int| 0 <= k < diff0.len() && (#[trigger] diff0[k]).0 == j;
                    assert(diff@[k].0 == j);
                }
            }
        }
        i = i + 1;
    }
    // Apply the difference list onto a copy of the base.
    let mut bodies: Vec<Body> = Vec::new();
    let mut j: usize = 0;
    while j < base.bodies.len()
        invariant
            j <= base.bodies@.len(),
            bodies@ =~= base.bodies@.take(j as int),
        decreases base.bodies@.len() - j,
    {
        bodies.push(base.bodies[j]);
        j = j + 1;
    }
    proof {
        assert(bodies@ =~= base.bodies@);
    }
    let mut k: usize = 0;
    while k < diff.len()
        invariant
            k <= diff@.len(),
            bodies@.len() == base@.bodies.len(),
            base@.bodies.len() == w@.bodies.len(),
            forall|d: int| 0 <= d < diff@.len() ==> 0 <= (#[trigger] diff@[d]).0 < w@.bodies.len(),
            forall|d: int| 0 <= d < diff@.len() ==> diff@[d].1 == w.bodies@[diff@[d].0 as int],
            forall|j2: int|
                0 <= j2 < w@.bodies.len() && base.bodies@[j2] != w.bodies@[j2] ==> exists|d: int|
                    0 <= d < diff@.len() && (#[trigger] diff@[d]).0 == j2,
            forall|j2: int|
                0 <= j2 < w@.bodies.len() ==> bodies@[j2] == base.bodies@[j2] || bodies@[j2]
                    == w.bodies@[j2],
            forall|d: int|
                0 <= d < k ==> bodies@[(#[trigger] diff@[d]).0 as int] == w.bodies@[diff@[d].0 as int],
        decreases diff@.len() - k,
    {
        let (idx, b) = diff[k];
        bodies.set(idx, b);
        k = k + 1;
    }
    proof {
        assert forall|j2: int| 0 <= j2 < w@.bodies.len() implies bodies@[j2] == w.bodies@[j2] by {
            if base.bodies@[j2] != w.bodies@[j2] {
                let d = choose|d: int| 0 <= d < diff@.len() && (#[trigger] diff@[d]).0 == j2;
                assert(bodies@[diff@[d].0 as int] == w.bodies@[diff@[d].0 as int]);
            }
        }
        assert(bodies@ =~= w.bodies@);
        assert((World { bodies, toggle: w.toggle })@ =~= w@);
    }
    World { bodies, toggle: w.toggle }
}

/// Captures the tracked state through the registered strategy.  Whatever
/// the strategy, the captured copy equals the live state: restoring it
/// reproduces the state exactly.
pub fn capture_with_strategy(strategy: &SnapshotStrategy, base: &World, w: &World) -> (r: World)
    requires
        base@.bodies.len() == w@.bodies.len(),
    ensures
        r@ == w@,
{
    match strategy {
        SnapshotStrategy::BitCopy => crate::world::copy_world(w),
        SnapshotStrategy::DeepClone => deep_clone_world(w),
        SnapshotStrategy::StructuralDiff => structural_diff_world(base, w),
    }
}

} // verus!
