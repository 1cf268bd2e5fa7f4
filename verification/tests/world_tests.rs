use rollback_core::toggle::{toggle_tick, Toggle};
use rollback_core::input::PlayerInput;
use rollback_core::registry::{capture_with_strategy, SnapshotStrategy, TrackingPlan};
use rollback_core::shim::ChangeFlags;
use rollback_core::startup;
use rollback_core::world::{
    copy_world, step_world, worlds_equal, Body, BodyKind, ColliderShape, Vec2i, World, ARENA_MAX,
    PLAYER_SPEED, TERMINAL_SPEED,
};

fn idle() -> PlayerInput {
    PlayerInput::default_input()
}

fn right() -> PlayerInput {
    PlayerInput { left: false, right: true, up: false, down: false, action: false }
}

fn both_idle() -> Vec<PlayerInput> {
    vec![idle(), idle()]
}

#[test]
fn startup_creates_the_reference_scene() {
    let s = startup();
    assert_eq!(s.clock.confirmed, 0);
    assert_eq!(s.clock.current, 0);
    assert!(s.random_input_on);
    assert_eq!(s.prediction_window, 5);
    assert_eq!(s.input_delay, 3);

    // Tracked entities, in creation order: ball, player 1, player 2.
    assert_eq!(s.world.bodies.len(), 3);
    let ball = &s.world.bodies[0];
    assert_eq!(ball.id, 0);
    assert_eq!(ball.kind, BodyKind::Free);
    assert_eq!(ball.shape, ColliderShape::Circle { radius: 4 });
    assert_eq!(ball.pos, Vec2i { x: 0, y: 10 });
    let p1 = &s.world.bodies[1];
    assert_eq!(p1.kind, BodyKind::PlayerControlled { handle: 0 });
    assert_eq!(p1.pos, Vec2i { x: -10, y: -50 });
    let p2 = &s.world.bodies[2];
    assert_eq!(p2.kind, BodyKind::PlayerControlled { handle: 1 });
    assert_eq!(p2.pos, Vec2i { x: 10, y: -50 });

    // The toggle waits out the one-second load period at 60 ticks per second.
    assert_eq!(s.world.toggle.threshold_ticks, 60);
    assert!(!s.world.toggle.stepping_enabled);

    // The static arena: four walls and four corner wedges.
    assert_eq!(s.statics.len(), 8);
    assert_eq!(s.statics[0].shape, ColliderShape::Rect { width: 210, height: 10 });
    assert_eq!(s.statics[0].pos, Vec2i { x: 0, y: -100 });
    assert_eq!(s.statics[3].pos, Vec2i { x: 0, y: 100 });
    assert_eq!(
        s.statics[4].shape,
        ColliderShape::Triangle {
            a: Vec2i { x: 0, y: 0 },
            b: Vec2i { x: -20, y: 0 },
            c: Vec2i { x: 0, y: 20 },
        }
    );
    assert_eq!(s.statics[7].pos, Vec2i { x: -100, y: 100 });
}

#[test]
fn toggle_holds_the_subsystem_until_threshold() {
    let mut g = Toggle::new(3);
    assert!(!g.stepping_enabled);
    g = toggle_tick(&g);
    g = toggle_tick(&g);
    assert!(!g.stepping_enabled);
    g = toggle_tick(&g);
    assert!(g.stepping_enabled);
    assert_eq!(g.elapsed_ticks, 3);
    g = toggle_tick(&g);
    assert!(g.stepping_enabled);
}

#[test]
fn closed_toggle_freezes_bodies_but_time_advances() {
    let s = startup();
    let w1 = step_world(&s.world, &vec![right(), right()]);
    assert_eq!(w1.bodies[1].pos, Vec2i { x: -10, y: -50 });
    assert_eq!(w1.toggle.elapsed_ticks, 1);
}

#[test]
fn players_move_by_their_own_input() {
    let mut s = startup();
    s.world.toggle = Toggle::new(0);
    let w1 = step_world(&s.world, &vec![right(), idle()]);
    assert_eq!(w1.bodies[1].pos.x, -10 + PLAYER_SPEED);
    assert_eq!(w1.bodies[1].vel, Vec2i { x: PLAYER_SPEED, y: 0 });
    assert_eq!(w1.bodies[2].pos.x, 10);
    assert_eq!(w1.bodies[2].vel, Vec2i { x: 0, y: 0 });
}

#[test]
fn positions_clamp_at_the_arena_walls() {
    let mut s = startup();
    s.world.toggle = Toggle::new(0);
    let mut w = s.world;
    for _ in 0..200 {
        w = step_world(&w, &vec![right(), idle()]);
    }
    assert_eq!(w.bodies[1].pos.x, ARENA_MAX);
}

#[test]
fn free_bodies_fall_to_terminal_speed() {
    let mut s = startup();
    s.world.toggle = Toggle::new(0);
    let mut w = s.world;
    for _ in 0..20 {
        w = step_world(&w, &both_idle());
    }
    assert_eq!(w.bodies[0].vel.y, -TERMINAL_SPEED);
    assert_eq!(w.bodies[0].pos.y, -100);
}

#[test]
fn every_snapshot_strategy_is_faithful() {
    let mut s = startup();
    s.world.toggle = Toggle::new(0);
    let moved = step_world(&s.world, &vec![right(), right()]);
    let base = s.world;
    for strategy in [
        SnapshotStrategy::BitCopy,
        SnapshotStrategy::DeepClone,
        SnapshotStrategy::StructuralDiff,
    ] {
        let captured = capture_with_strategy(&strategy, &base, &moved);
        assert!(worlds_equal(&captured, &moved));
    }
}

#[test]
fn copied_world_is_bit_identical() {
    let s = startup();
    let c = copy_world(&s.world);
    assert!(worlds_equal(&c, &s.world));
    let other = World {
        bodies: vec![Body {
            id: 0,
            kind: BodyKind::Free,
            shape: ColliderShape::Circle { radius: 4 },
            pos: Vec2i { x: 1, y: 1 },
            vel: Vec2i { x: 0, y: 0 },
        }],
        toggle: Toggle::new(0),
    };
    assert!(!worlds_equal(&other, &s.world));
}

#[test]
fn shim_force_marks_every_tracked_entity() {
    let s = startup();
    let mut flags = ChangeFlags::for_world(&s.world);
    assert_eq!(flags.changed.len(), 3);
    // Downstream consumers may clear flags; the shim re-dirties all of
    // them, unconditionally, every tick.
    flags.changed[0] = false;
    flags.changed[2] = false;
    flags.force_mark_all();
    assert!(flags.changed.iter().all(|c| *c));
}

#[test]
fn default_plan_is_bit_copy_with_positions() {
    let plan = TrackingPlan::default_plan();
    assert_eq!(plan.strategy, SnapshotStrategy::BitCopy);
    assert!(plan.checksum_position);
    assert!(!plan.checksum_velocity);
}
