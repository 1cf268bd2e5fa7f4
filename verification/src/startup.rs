//! Initial scene and resource setup: the tracked entities, the static
//! arena colliders, and the starting values of every rollback-tracked
//! resource.

use vstd::prelude::*;

verus! {

use crate::FPS;
use crate::INPUT_DELAY;
use crate::LOAD_SECONDS;
use crate::MAX_PREDICTION;
use crate::frames::FrameClock;
use crate::frames::RollbackStatus;
use crate::toggle::Toggle;
use crate::registry::TrackingPlan;
use crate::world::Body;
use crate::world::BodyKind;
use crate::world::ColliderShape;
use crate::world::Vec2i;
use crate::world::World;
use crate::world::WorldModel;

/// A static, non-tracked collider: arena geometry that never moves and
/// never rolls back.
#[derive(Clone, Copy, PartialEq, Eq, Structural, Debug)]
pub struct StaticCollider {
    pub shape: ColliderShape,
    pub pos: Vec2i,
}

/// Everything `startup` creates: the frame-tracking resources, the
/// registration plan, the tracked world, and the static arena.
#[derive(Debug)]
pub struct GameSetup {
    pub clock: FrameClock,
    pub status: RollbackStatus,
    pub plan: TrackingPlan,
    /// Whether scripted test movement is on.
    pub random_input_on: bool,
    pub prediction_window: u64,
    pub input_delay: u64,
    pub world: World,
    pub statics: Vec<StaticCollider>,
}

/// The tracked entities at frame zero: the ball above the floor and the
/// two players beside each other, all at rest, with the subsystem toggle
/// waiting out the load period.
pub open spec fn spec_initial_world() -> WorldModel {
    WorldModel {
        bodies: seq![
            Body {
                id: 0,
                kind: BodyKind::Free,
                shape: ColliderShape::Circle { radius: 4 },
                pos: Vec2i { x: 0, y: 10 },
                vel: Vec2i { x: 0, y: 0 },
            },
            Body {
                id: 1,
                kind: BodyKind::PlayerControlled { handle: 0 },
                shape: ColliderShape::Rect { width: 16, height: 16 },
                pos: Vec2i { x: -10i64, y: -50i64 },
                vel: Vec2i { x: 0, y: 0 },
            },
            Body {
                id: 2,
                kind: BodyKind::PlayerControlled { handle: 1 },
                shape: ColliderShape::Rect { width: 16, height: 16 },
                pos: Vec2i { x: 10, y: -50i64 },
                vel: Vec2i { x: 0, y: 0 },
            },
        ],
        toggle: Toggle::spec_new((FPS * LOAD_SECONDS) as u64),
    }
}

/// The static arena: a box of four walls around the play area and a
/// triangular wedge in each corner.
pub open spec fn spec_initial_statics() -> Seq<StaticCollider> {
    seq![
        // Floor
        StaticCollider {
            shape: ColliderShape::Rect { width: 210, height: 10 },
            pos: Vec2i { x: 0, y: -100i64 },
        },
        // Left wall
        StaticCollider {
            shape: ColliderShape::Rect { width: 10, height: 210 },
            pos: Vec2i { x: -100i64, y: 0 },
        },
        // Right wall
        StaticCollider {
            shape: ColliderShape::Rect { width: 10, height: 210 },
            pos: Vec2i { x: 100, y: 0 },
        },
        // Ceiling
        StaticCollider {
            shape: ColliderShape::Rect { width: 210, height: 10 },
            pos: Vec2i { x: 0, y: 100 },
        },
        // Southeast corner wedge
        StaticCollider {
            shape: ColliderShape::Triangle {
                a: Vec2i { x: 0, y: 0 },
                b: Vec2i { x: -20i64, y: 0 },
                c: Vec2i { x: 0, y: 20 },
            },
            pos: Vec2i { x: 100, y: -100i64 },
        },
        // Southwest corner wedge
        StaticCollider {
            shape: ColliderShape::Triangle {
                a: Vec2i { x: 0, y: 0 },
                b: Vec2i { x: 20, y: 0 },
                c: Vec2i { x: 0, y: 20 },
            },
            pos: Vec2i { x: -100i64, y: -100i64 },
        },
        // Northeast corner wedge
        StaticCollider {
            shape: ColliderShape::Triangle {
                a: Vec2i { x: 0, y: 0 },
                b: Vec2i { x: -20i64, y: 0 },
                c: Vec2i { x: 0, y: -20i64 },
            },
            pos: Vec2i { x: 100, y: 100 },
        },
        // Northwest corner wedge
        StaticCollider {
            shape: ColliderShape::Triangle {
                a: Vec2i { x: 0, y: 0 },
                b: Vec2i { x: 20, y: 0 },
                c: Vec2i { x: 0, y: -20i64 },
            },
            pos: Vec2i { x: -100i64, y: 100 },
        },
    ]
}

/// Creates the session's starting state: zeroed frame clock, normal
/// rollback status, the default registration plan, scripted test movement
/// switched on, the reference prediction window and input delay, the
/// tracked world of [`spec_initial_world`], and the static arena of
/// [`spec_initial_statics`].
pub fn startup() -> (s: GameSetup)
    ensures
        s.clock == FrameClock::spec_start(),
        s.status == RollbackStatus::Normal,
        s.plan == TrackingPlan::spec_default_plan(),
        s.random_input_on == true,
        s.prediction_window == MAX_PREDICTION,
        s.input_delay == INPUT_DELAY,
        s.world@ == spec_initial_world(),
        s.world@.wf(),
        s.statics@ == spec_initial_statics(),
{
    let mut bodies: Vec<Body> = Vec::new();
    bodies.push(
        Body {
            id: 0,
            kind: BodyKind::Free,
            shape: ColliderShape::Circle { radius: 4 },
            pos: Vec2i { x: 0, y: 10 },
            vel: Vec2i { x: 0, y: 0 },
        },
    );
    bodies.push(
        Body {
            id: 1,
            kind: BodyKind::PlayerControlled { handle: 0 },
            shape: ColliderShape::Rect { width: 16, height: 16 },
            pos: Vec2i { x: -10, y: -50 },
            vel: Vec2i { x: 0, y: 0 },
        },
    );
    bodies.push(
        Body {
            id: 2,
            kind: BodyKind::PlayerControlled { handle: 1 },
            shape: ColliderShape::Rect { width: 16, height: 16 },
            pos: Vec2i { x: 10, y: -50 },
            vel: Vec2i { x: 0, y: 0 },
        },
    );
    let world = World { bodies, toggle: crate::toggle::Toggle::new(FPS * LOAD_SECONDS) };

    let mut statics: Vec<StaticCollider> = Vec::new();
    statics.push(
        StaticCollider {
            shape: ColliderShape::Rect { width: 210, height: 10 },
            pos: Vec2i { x: 0, y: -100 },
        },
    );
    statics.push(
        StaticCollider {
            shape: ColliderShape::Rect { width: 10, height: 210 },
            pos: Vec2i { x: -100, y: 0 },
        },
    );
    statics.push(
        StaticCollider {
            shape: ColliderShape::Rect { width: 10, height: 210 },
            pos: Vec2i { x: 100, y: 0 },
        },
    );
    statics.push(
        StaticCollider {
            shape: ColliderShape::Rect { width: 210, height: 10 },
            pos: Vec2i { x: 0, y: 100 },
        },
    );
    statics.push(
        StaticCollider {
            shape: ColliderShape::Triangle {
                a: Vec2i { x: 0, y: 0 },
                b: Vec2i { x: -20, y: 0 },
                c: Vec2i { x: 0, y: 20 },
            },
            pos: Vec2i { x: 100, y: -100 },
        },
    );
    statics.push(
        StaticCollider {
            shape: ColliderShape::Triangle {
                a: Vec2i { x: 0, y: 0 },
                b: Vec2i { x: 20, y: 0 },
                c: Vec2i { x: 0, y: 20 },
            },
            pos: Vec2i { x: -100, y: -100 },
        },
    );
    statics.push(
        StaticCollider {
            shape: ColliderShape::Triangle {
                a: Vec2i { x: 0, y: 0 },
                b: Vec2i { x: -20, y: 0 },
                c: Vec2i { x: 0, y: -20 },
            },
            pos: Vec2i { x: 100, y: 100 },
        },
    );
    statics.push(
        StaticCollider {
            shape: ColliderShape::Triangle {
                a: Vec2i { x: 0, y: 0 },
                b: Vec2i { x: 20, y: 0 },
                c: Vec2i { x: 0, y: -20 },
            },
            pos: Vec2i { x: -100, y: 100 },
        },
    );
    proof {
        assert(world@ =~= spec_initial_world());
        assert(statics@ =~= spec_initial_statics());
    }
    GameSetup {
        clock: FrameClock::start(),
        status: RollbackStatus::Normal,
        plan: TrackingPlan::default_plan(),
        random_input_on: true,
        prediction_window: MAX_PREDICTION,
        input_delay: INPUT_DELAY,
        world,
        statics,
    }
}

} // verus!
