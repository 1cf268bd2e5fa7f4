//! The rollback orchestrator: per-frame snapshot retention, restore,
//! eviction, and rollback-plus-resimulation.

use vstd::prelude::*;

verus! {

use crate::checksum::spec_world_checksum;
use crate::checksum::world_checksum;
use crate::frames::FrameClock;
use crate::frames::RollbackStatus;
use crate::frames::spec_max_u64;
use crate::toggle::spec_toggle_after;
use crate::input::PlayerInput;
use crate::registry::TrackingPlan;
use crate::registry::capture_with_strategy;
use crate::world::World;
use crate::world::WorldModel;
use crate::world::copy_world;
use crate::world::lemma_step_preserves_wf;
use crate::world::spec_step;
use crate::world::step_world;

/// A rollback request named a frame for which no snapshot is retained.
/// Fatal: it signals a misconfigured prediction window or an eviction bug.
#[derive(Clone, Copy, PartialEq, Eq, Structural, Debug)]
pub struct MissingSnapshotError {
    /// The frame the rollback asked for.
    pub target: u64,
}

/// One retained snapshot: a full copy of every rollback-tracked piece of
/// state at the start of `frame`.
#[derive(Debug)]
pub struct Snapshot {
    pub frame: u64,
    pub world: World,
}

/// The tracked state a slot sequence retains for frame `f`: the latest
/// written slot for the frame wins.
pub open spec fn spec_lookup(slots: Seq<Snapshot>, f: u64) -> Option<WorldModel>
    decreases slots.len(),
{
    if slots.len() == 0 {
        None
    } else if slots.last().frame == f {
        Some(slots.last().world@)
    } else {
        spec_lookup(slots.drop_last(), f)
    }
}

/// Snapshot storage, owned exclusively by the rollback orchestrator: no
/// other component reads historical snapshots.
#[derive(Debug)]
pub struct SnapshotStore {
    pub slots: Vec<Snapshot>,
}

impl SnapshotStore {
    /// The state retained for frame `f`, if any.
    pub open spec fn spec_at(self, f: u64) -> Option<WorldModel> {
        spec_lookup(self.slots@, f)
    }

    /// A store with nothing retained.
    pub fn new() -> (r: SnapshotStore)
        ensures
            forall|g: u64| r.spec_at(g) is None,
    {
        SnapshotStore { slots: Vec::new() }
    }

    /// Retains `world` as the snapshot for `frame`, replacing any snapshot
    /// already held for that frame and leaving every other frame alone.
    pub fn save(&mut self, frame: u64, world: World)
        ensures
            final(self).spec_at(frame) == Some(world@),
            forall|g: u64| g != frame ==> final(self).spec_at(g) == old(self).spec_at(g),
    {
        let mut kept: Vec<Snapshot> = Vec::new();
        let n = self.slots.len();
        let mut i: usize = 0;
        while i < n
            invariant
                i <= n,
                n == self.slots@.len(),
                forall|g: u64|
                    #[trigger] spec_lookup(kept@, g) == (if g == frame {
                        None::<WorldModel>
                    } else {
                        spec_lookup(self.slots@.take(i as int), g)
                    }),
            decreases n - i,
        {
            let ghost kept0 = kept@;
            let keep = self.slots[i].frame != frame;
            if keep {
                let f = self.slots[i].frame;
                let w = copy_world(&self.slots[i].world);
                kept.push(Snapshot { frame: f, world: w });
            }
            i = i + 1;
            proof {
                let tprev = self.slots@.take(i as int - 1);
                let tcur = self.slots@.take(i as int);
                assert(tcur.drop_last() =~= tprev);
                assert(tcur.last() == self.slots@[i - 1]);
                if keep {
                    assert(kept@.drop_last() =~= kept0);
                }
                assert forall|g: u64|
                    #[trigger] spec_lookup(kept@, g) == (if g == frame {
                        None::<WorldModel>
                    } else {
                        spec_lookup(tcur, g)
                    }) by {
                    assert(spec_lookup(kept0, g) == (if g == frame {
                        None::<WorldModel>
                    } else {
                        spec_lookup(tprev, g)
                    }));
                }
            }
        }
        proof {
            assert(self.slots@.take(n as int) =~= self.slots@);
        }
        let ghost kept1 = kept@;
        kept.push(Snapshot { frame, world });
        let ghost slots0 = self.slots@;
        self.slots = kept;
        proof {
            assert(self.slots@.drop_last() =~= kept1);
            assert forall|g: u64| g != frame implies #[trigger] self.spec_at(g) == spec_lookup(
                slots0,
                g,
            ) by {
                assert(spec_lookup(kept1, g) == spec_lookup(slots0, g));
            }
        }
    }

    /// Hands back a copy of the snapshot retained for `frame`, or the fatal
    /// missing-snapshot error exactly when no snapshot for it is retained.
    pub fn restore(&self, frame: u64) -> (r: Result<World, MissingSnapshotError>)
        ensures
            r is Ok <==> self.spec_at(frame) is Some,
            r matches Ok(w) ==> Some(w@) == self.spec_at(frame),
            r matches Err(e) ==> e == (MissingSnapshotError { target: frame }),
    {
        let mut i: usize = self.slots.len();
        proof {
            assert(self.slots@.take(i as int) =~= self.slots@);
        }
        while i > 0
            invariant
                i <= self.slots@.len(),
                spec_lookup(self.slots@.take(i as int), frame) == self.spec_at(frame),
            decreases i,
        {
            i = i - 1;
            proof {
                let tcur = self.slots@.take(i as int + 1);
                assert(tcur.drop_last() =~= self.slots@.take(i as int));
                assert(tcur.last() == self.slots@[i as int]);
            }
            if self.slots[i].frame == frame {
                let w = copy_world(&self.slots[i].world);
                return Ok(w);
            }
        }
        Err(MissingSnapshotError { target: frame })
    }

    /// Discards every snapshot for a frame below `min`, leaving the rest
    /// untouched: frames at or above `min` stay retained, frames below it
    /// are gone.
    pub fn evict_before(&mut self, min: u64)
        ensures
            forall|g: u64| g >= min ==> final(self).spec_at(g) == old(self).spec_at(g),
            forall|g: u64| g < min ==> final(self).spec_at(g) is None,
    {
        let mut kept: Vec<Snapshot> = Vec::new();
        let n = self.slots.len();
        let mut i: usize = 0;
        while i < n
            invariant
                i <= n,
                n == self.slots@.len(),
                forall|g: u64|
                    #[trigger] spec_lookup(kept@, g) == (if g < min {
                        None::<WorldModel>
                    } else {
                        spec_lookup(self.slots@.take(i as int), g)
                    }),
            decreases n - i,
        {
            let ghost kept0 = kept@;
            let keep = self.slots[i].frame >= min;
            if keep {
                let f = self.slots[i].frame;
                let w = copy_world(&self.slots[i].world);
                kept.push(Snapshot { frame: f, world: w });
            }
            i = i + 1;
            proof {
                let tprev = self.slots@.take(i as int - 1);
                let tcur = self.slots@.take(i as int);
                assert(tcur.drop_last() =~= tprev);
                assert(tcur.last() == self.slots@[i - 1]);
                if keep {
                    assert(kept@.drop_last() =~= kept0);
                }
                assert forall|g: u64|
                    #[trigger] spec_lookup(kept@, g) == (if g < min {
                        None::<WorldModel>
                    } else {
                        spec_lookup(tcur, g)
                    }) by {
                    assert(spec_lookup(kept0, g) == (if g < min {
                        None::<WorldModel>
                    } else {
                        spec_lookup(tprev, g)
                    }));
                }
            }
        }
        proof {
            assert(self.slots@.take(n as int) =~= self.slots@);
        }
        self.slots = kept;
    }
}

/// The per-frame input sequences a log of input vectors stands for.
pub open spec fn spec_views_of(log: Seq<Vec<PlayerInput>>) -> Seq<Seq<PlayerInput>> {
    Seq::new(log.len(), |k: int| log[k]@)
}

/// The state reached by stepping `m` through every frame of `log`, in
/// order.  Both live execution and resimulation compute exactly this.
pub open spec fn spec_replay(m: WorldModel, log: Seq<Seq<PlayerInput>>) -> WorldModel
    decreases log.len(),
{
    if log.len() == 0 {
        m
    } else {
        spec_step(spec_replay(m, log.drop_last()), log.last())
    }
}

/// Replaying preserves the world invariant.
pub proof fn lemma_replay_preserves_wf(m: WorldModel, log: Seq<Seq<PlayerInput>>)
    requires
        m.wf(),
    ensures
        spec_replay(m, log).wf(),
    decreases log.len(),
{
    if log.len() > 0 {
        lemma_replay_preserves_wf(m, log.drop_last());
        lemma_step_preserves_wf(spec_replay(m, log.drop_last()), log.last());
    }
}

/// Replaying a concatenated log is replaying its first part, then its
/// second from the state the first part reached.
pub proof fn lemma_replay_composition(m: WorldModel, a: Seq<Seq<PlayerInput>>, b: Seq<Seq<PlayerInput>>)
    ensures
        spec_replay(m, a + b) == spec_replay(spec_replay(m, a), b),
    decreases b.len(),
{
    if b.len() == 0 {
        assert(a + b =~= a);
    } else {
        lemma_replay_composition(m, a, b.drop_last());
        assert((a + b).drop_last() =~= a + b.drop_last());
        assert((a + b).last() == b.last());
    }
}

/// Replay equivalence: resimulating from the state at some frame with
/// inputs identical to the originals reproduces, frame for frame, the very
/// states the live pass produced.  Rolling back and replaying an unchanged
/// log can never change the outcome.
pub proof fn lemma_replay_equivalence(
    m: WorldModel,
    live: Seq<Seq<PlayerInput>>,
    corrected: Seq<Seq<PlayerInput>>,
    f: int,
    k: int,
)
    requires
        0 <= f <= f + k <= live.len(),
        corrected =~= live.subrange(f, f + k),
    ensures
        spec_replay(spec_replay(m, live.take(f)), corrected) == spec_replay(m, live.take(f + k)),
{
    lemma_replay_composition(m, live.take(f), corrected);
    assert(live.take(f) + corrected =~= live.take(f + k));
}

/// The per-frame checksums a replay of `log` from `m` produces: one value
/// for the state after each prefix of the log, under plan `plan`.
pub open spec fn spec_run_checksums(m: WorldModel, log: Seq<Seq<PlayerInput>>, plan: TrackingPlan) -> Seq<u64> {
    Seq::new(log.len() + 1, |i: int| spec_world_checksum(spec_replay(m, log.take(i)), plan))
}

/// Determinism: two independent instances that start from the same state
/// and replay input logs with the same entries produce identical checksums
/// at every frame.  The simulation consults nothing but the state and the
/// log: no wall clock, no randomness, no iteration over unordered storage.
pub proof fn lemma_determinism(
    m: WorldModel,
    log_a: Seq<Seq<PlayerInput>>,
    log_b: Seq<Seq<PlayerInput>>,
    plan: TrackingPlan,
)
    requires
        log_a =~= log_b,
    ensures
        spec_run_checksums(m, log_a, plan) =~= spec_run_checksums(m, log_b, plan),
{
}

/// Snapshot eviction: once the confirmed frame exceeds a frame `f` by more
/// than the prediction window, no snapshot for `f` is retained, so a
/// rollback request targeting `f` must fail with the missing-snapshot
/// error.
pub proof fn lemma_eviction_bars_rollback(e: RollbackEngine, f: u64)
    requires
        e.wf(),
        e.clock.confirmed > f + e.prediction_window,
    ensures
        e.store.spec_at(f) is None,
{
    assert(f < e.retention_floor());
}

/// The toggle's state after a replay is a function of the frame count alone:
/// inputs move bodies, never the clock.  Together with the toggle's own
/// toggle lemma this pins the toggle to one frame number, however that
/// frame is reached.
pub proof fn lemma_toggle_frame_function(m: WorldModel, log: Seq<Seq<PlayerInput>>)
    ensures
        spec_replay(m, log).toggle == spec_toggle_after(m.toggle, log.len()),
    decreases log.len(),
{
    if log.len() > 0 {
        lemma_toggle_frame_function(m, log.drop_last());
    }
}

/// The rollback engine: the frame clock, the retained snapshots, the live
/// tracked state, and the registration plan, advancing or rewinding one
/// tick at a time.
///
/// Each tick the session yields either a set of inputs enabling a forward
/// advance, or a rollback instruction naming a target frame with corrected
/// historical inputs; [`RollbackEngine::advance`] and
/// [`RollbackEngine::rollback_to`] are those two paths.
#[derive(Debug)]
pub struct RollbackEngine {
    pub clock: FrameClock,
    pub status: RollbackStatus,
    /// How many frames the simulation may run ahead of confirmation.
    pub prediction_window: u64,
    /// The rollback-tracking registration this session runs under.
    pub plan: TrackingPlan,
    pub store: SnapshotStore,
    pub world: World,
}

impl RollbackEngine {
    /// The oldest frame whose snapshot must still be retained: frames
    /// before `confirmed - prediction_window` can never be rollback
    /// targets.
    pub open spec fn retention_floor(self) -> u64 {
        if self.clock.confirmed >= self.prediction_window {
            (self.clock.confirmed - self.prediction_window) as u64
        } else {
            0u64
        }
    }

    /// The engine invariant: the live state is well formed, confirmation
    /// never outruns simulation, speculation stays within the prediction
    /// window, a snapshot is retained for every frame from the retention
    /// floor up to the current frame, nothing older is retained, and every
    /// retained snapshot is well formed.
    pub open spec fn wf(self) -> bool {
        &&& self.world@.wf()
        &&& self.clock.confirmed <= self.clock.current
        &&& self.clock.current <= self.clock.confirmed + self.prediction_window
        &&& forall|f: u64|
            self.retention_floor() <= f < self.clock.current ==> (#[trigger] self.store.spec_at(
                f,
            )) is Some
        &&& forall|f: u64| f < self.retention_floor() ==> (#[trigger] self.store.spec_at(f)) is None
        &&& forall|f: u64| (#[trigger] self.store.spec_at(f)) matches Some(m) ==> m.wf()
    }

    /// Starts a session at frame zero with the given tracked state and
    /// registration.
    pub fn new(world: World, prediction_window: u64, plan: TrackingPlan) -> (r: RollbackEngine)
        requires
            world@.wf(),
        ensures
            r.wf(),
            r.clock == FrameClock::spec_start(),
            r.status == RollbackStatus::Normal,
            r.prediction_window == prediction_window,
            r.plan == plan,
            r.world@ == world@,
            forall|g: u64| r.store.spec_at(g) is None,
    {
        RollbackEngine {
            clock: FrameClock::start(),
            status: RollbackStatus::Normal,
            prediction_window,
            plan,
            store: SnapshotStore::new(),
            world,
        }
    }

    /// The per-frame checksum of the live tracked state under the
    /// registered allow-list.
    pub fn frame_checksum(&self) -> (r: u64)
        ensures
            r == spec_world_checksum(self.world@, self.plan),
    {
        world_checksum(&self.world, &self.plan)
    }

    /// Advances one frame: snapshots the current state, steps the world
    /// with this frame's inputs, raises the confirmed frame to what the
    /// session reports (never lowering it), and discards snapshots that
    /// fell behind the retention floor.
    ///
    /// The caller must stall instead of advancing once the new frame would
    /// outrun the confirmed frame by more than the prediction window.
    pub fn advance(&mut self, inputs: &Vec<PlayerInput>, session_confirmed: u64)
        requires
            old(self).wf(),
            old(self).clock.current < u64::MAX,
            session_confirmed <= old(self).clock.current + 1,
            old(self).clock.current + 1 <= spec_max_u64(old(self).clock.confirmed, session_confirmed)
                + old(self).prediction_window,
        ensures
            final(self).wf(),
            final(self).world@ == spec_step(old(self).world@, inputs@),
            final(self).clock.current == old(self).clock.current + 1,
            final(self).clock.confirmed == spec_max_u64(
                old(self).clock.confirmed,
                session_confirmed,
            ),
            final(self).status == RollbackStatus::Normal,
            final(self).prediction_window == old(self).prediction_window,
            final(self).plan == old(self).plan,
            final(self).retention_floor() <= old(self).clock.current ==> final(self).store.spec_at(
                old(self).clock.current,
            ) == Some(old(self).world@),
            forall|g: u64|
                final(self).retention_floor() <= g < old(self).clock.current
                    ==> final(self).store.spec_at(g) == old(self).store.spec_at(g),
            forall|g: u64| g < final(self).retention_floor() ==> final(self).store.spec_at(g) is None,
    {
        let snap = capture_with_strategy(&self.plan.strategy, &self.world, &self.world);
        let cur = self.clock.current;
        self.store.save(cur, snap);
        let stepped = step_world(&self.world, inputs);
        self.world = stepped;
        self.clock.current = cur + 1;
        if session_confirmed > self.clock.confirmed {
            self.clock.confirmed = session_confirmed;
        }
        let floor: u64 = if self.clock.confirmed >= self.prediction_window {
            self.clock.confirmed - self.prediction_window
        } else {
            0
        };
        self.store.evict_before(floor);
        self.status = RollbackStatus::Normal;
        proof {
            assert forall|f: u64|
                self.retention_floor() <= f < self.clock.current implies (
            #[trigger] self.store.spec_at(f)) is Some by {
                if f != cur {
                    assert(old(self).retention_floor() <= f < cur);
                }
            }
        }
    }

    /// Rolls back to `target` and resimulates forward to the previous
    /// current frame with the corrected inputs, overwriting the snapshots
    /// of the replayed frames as they are produced.  A target with no
    /// retained snapshot is the fatal missing-snapshot error, and the
    /// engine is left untouched.
    pub fn rollback_to(&mut self, target: u64, corrected: &Vec<Vec<PlayerInput>>) -> (r: Result<
        (),
        MissingSnapshotError,
    >)
        requires
            old(self).wf(),
            target <= old(self).clock.current,
            corrected@.len() == old(self).clock.current - target,
        ensures
            final(self).wf(),
            r is Ok <==> old(self).store.spec_at(target) is Some,
            old(self).store.spec_at(target) is None ==> r == Err::<(), MissingSnapshotError>(
                MissingSnapshotError { target },
            ) && *final(self) == *old(self),
            old(self).store.spec_at(target) matches Some(w0) ==> {
                &&& final(self).world@ == spec_replay(w0, spec_views_of(corrected@))
                &&& final(self).clock == old(self).clock
                &&& final(self).prediction_window == old(self).prediction_window
                &&& final(self).plan == old(self).plan
                &&& final(self).status == (RollbackStatus::RollingBack {
                    from: old(self).clock.current,
                    to: target,
                })
                &&& forall|j: int|
                    0 <= j < corrected@.len() ==> final(self).store.spec_at((target + j) as u64)
                        == Some(spec_replay(w0, spec_views_of(corrected@).take(j)))
                &&& forall|g: u64|
                    !(target <= g < old(self).clock.current) ==> final(self).store.spec_at(g)
                        == old(self).store.spec_at(g)
            },
    {
        let restored = self.store.restore(target);
        match restored {
            Err(e) => Err(e),
            Ok(w_start) => {
                let ghost w0 = w_start@;
                let mut w = w_start;
                let from = self.clock.current;
                let n = corrected.len();
                proof {
                    assert(self.store.spec_at(target) matches Some(m) && m.wf());
                    assert(spec_views_of(corrected@).take(0) =~= Seq::<Seq<PlayerInput>>::empty());
                }
                let mut k: usize = 0;
                while k < n
                    invariant
                        k <= n,
                        n == corrected@.len(),
                        target + n == old(self).clock.current,
                        self.clock == old(self).clock,
                        self.status == old(self).status,
                        self.prediction_window == old(self).prediction_window,
                        self.plan == old(self).plan,
                        self.world == old(self).world,
                        w0.wf(),
                        w@ == spec_replay(w0, spec_views_of(corrected@).take(k as int)),
                        w@.wf(),
                        forall|j: int|
                            0 <= j < k ==> self.store.spec_at((target + j) as u64) == Some(
                                spec_replay(w0, spec_views_of(corrected@).take(j)),
                            ),
                        forall|g: u64|
                            !(target <= g < target + k) ==> self.store.spec_at(g)
                                == old(self).store.spec_at(g),
                    decreases n - k,
                {
                    let frame: u64 = target + (k as u64);
                    let snap = capture_with_strategy(&self.plan.strategy, &w, &w);
                    self.store.save(frame, snap);
                    let stepped = step_world(&w, &corrected[k]);
                    w = stepped;
                    k = k + 1;
                    proof {
                        let views = spec_views_of(corrected@);
                        assert(views.take(k as int).drop_last() =~= views.take(k as int - 1));
                        assert(views.take(k as int).last() == corrected@[k - 1]@);
                    }
                }
                self.world = w;
                self.status = RollbackStatus::RollingBack { from, to: target };
                proof {
                    assert(spec_views_of(corrected@).take(n as int) =~= spec_views_of(corrected@));
                    // The rollback target held a snapshot, so it sits at or
                    // above the retention floor; every overwritten frame
                    // does too.
                    assert(target >= old(self).retention_floor());
                    assert forall|f: u64|
                        self.retention_floor() <= f < self.clock.current implies (
                    #[trigger] self.store.spec_at(f)) is Some by {
                        if target <= f < target + n {
                            let j = f - target;
                            assert(self.store.spec_at((target + j) as u64) == Some(
                                spec_replay(w0, spec_views_of(corrected@).take(j as int)),
                            ));
                        }
                    }
                    assert forall|f: u64| (#[trigger] self.store.spec_at(f)) is Some
                        implies (self.store.spec_at(f)->Some_0).wf() by {
                        if target <= f < target + n {
                            let j = f - target;
                            assert(self.store.spec_at((target + j) as u64) == Some(
                                spec_replay(w0, spec_views_of(corrected@).take(j as int)),
                            ));
                            lemma_replay_preserves_wf(w0, spec_views_of(corrected@).take(j as int));
                        }
                    }
                }
                Ok(())
            },
        }
    }
}

} // verus!
