//! The rollback-tracked simulation state and its deterministic step
//! function.
//!
//! Positions and velocities are fixed-point integers so that the state is
//! plain data with one byte layout on every peer.  The step function is a
//! pure function of (state, inputs): replayed ticks re-enter exactly the
//! same code path as live ticks.

use vstd::prelude::*;

verus! {

use crate::NUM_PLAYERS;
use crate::toggle::Toggle;
use crate::toggle::toggle_tick;
use crate::toggle::spec_toggle_tick;
use crate::input::PlayerInput;

/// Lowest coordinate inside the arena walls.
pub const ARENA_MIN: i64 = -100;

/// Highest coordinate inside the arena walls.
pub const ARENA_MAX: i64 = 100;

/// Distance a player moves per tick along each pressed axis.
pub const PLAYER_SPEED: i64 = 2;

/// Downward acceleration of a free body, per tick.
pub const GRAVITY: i64 = 1;

/// Largest speed any body may reach along one axis.
pub const TERMINAL_SPEED: i64 = 8;

/// A two-component fixed-point vector.
#[derive(Clone, Copy, PartialEq, Eq, Structural, Debug)]
pub struct Vec2i {
    pub x: i64,
    pub y: i64,
}

/// Who drives a body.
#[derive(Clone, Copy, PartialEq, Eq, Structural, Debug)]
pub enum BodyKind {
    /// Driven by the step function alone (gravity).
    Free,
    /// Driven by the named player's input each tick.
    PlayerControlled { handle: usize },
}

/// The collision shape a body was registered with.  The collision response
/// itself belongs to the physics collaborator; the core only carries the
/// shape as plain data.
#[derive(Clone, Copy, PartialEq, Eq, Structural, Debug)]
pub enum ColliderShape {
    Circle { radius: i64 },
    Rect { width: i64, height: i64 },
    Triangle { a: Vec2i, b: Vec2i, c: Vec2i },
}

/// One rollback-tracked entity.  `id` is the creation index: the canonical,
/// peer-independent iteration order for checksums.
#[derive(Clone, Copy, PartialEq, Eq, Structural, Debug)]
pub struct Body {
    pub id: u64,
    pub kind: BodyKind,
    pub shape: ColliderShape,
    pub pos: Vec2i,
    pub vel: Vec2i,
}

/// A body's state invariant: it stays inside the arena, below terminal
/// speed, and a player-controlled body names a real player.
pub open spec fn body_wf(b: Body) -> bool {
    &&& ARENA_MIN <= b.pos.x <= ARENA_MAX
    &&& ARENA_MIN <= b.pos.y <= ARENA_MAX
    &&& -TERMINAL_SPEED <= b.vel.x <= TERMINAL_SPEED
    &&& -TERMINAL_SPEED <= b.vel.y <= TERMINAL_SPEED
    &&& (b.kind matches BodyKind::PlayerControlled { handle } ==> handle < NUM_PLAYERS)
}

/// The full rollback-tracked state for one frame: every tracked entity in
/// creation order, plus the subsystem toggle.
#[derive(Debug)]
pub struct World {
    pub bodies: Vec<Body>,
    pub toggle: Toggle,
}

/// The mathematical model of a [`World`].
#[verifier::ext_equal]
pub struct WorldModel {
    pub bodies: Seq<Body>,
    pub toggle: Toggle,
}

impl WorldModel {
    /// Well-formedness: body ids equal their creation index (this is the
    /// canonical order), every body keeps its invariant, and the toggle's
    /// flag agrees with its accumulator.
    pub open spec fn wf(self) -> bool {
        &&& self.toggle.wf()
        &&& forall|k: int| 0 <= k < self.bodies.len() ==> (#[trigger] self.bodies[k]).id == k
        &&& forall|k: int| 0 <= k < self.bodies.len() ==> body_wf(#[trigger] self.bodies[k])
    }
}

impl View for World {
    type V = WorldModel;

    open spec fn view(&self) -> WorldModel {
        WorldModel { bodies: self.bodies@, toggle: self.toggle }
    }
}

/// A coordinate clamped to the arena.
pub open spec fn spec_clamp(v: int) -> i64 {
    if v < ARENA_MIN {
        ARENA_MIN
    } else if v > ARENA_MAX {
        ARENA_MAX
    } else {
        v as i64
    }
}

/// The velocity a player's input commands.
pub open spec fn spec_input_vel(i: PlayerInput) -> Vec2i {
    Vec2i {
        x: ((if i.right {
            PLAYER_SPEED as int
        } else {
            0int
        }) - (if i.left {
            PLAYER_SPEED as int
        } else {
            0int
        })) as i64,
        y: ((if i.up {
            PLAYER_SPEED as int
        } else {
            0int
        }) - (if i.down {
            PLAYER_SPEED as int
        } else {
            0int
        })) as i64,
    }
}

/// A free body's velocity after one tick of gravity, capped at terminal
/// speed.
pub open spec fn spec_fall_vel(v: Vec2i) -> Vec2i {
    Vec2i {
        x: v.x,
        y: if v.y - GRAVITY < -TERMINAL_SPEED {
            (-TERMINAL_SPEED) as i64
        } else {
            (v.y - GRAVITY) as i64
        },
    }
}

/// One body after one tick: its velocity comes from its driver, its
/// position advances by that velocity and is clamped to the arena.
pub open spec fn spec_step_body(b: Body, inputs: Seq<PlayerInput>) -> Body {
    let vel = match b.kind {
        BodyKind::PlayerControlled { handle } => if handle < inputs.len() {
            spec_input_vel(inputs[handle as int])
        } else {
            b.vel
        },
        BodyKind::Free => spec_fall_vel(b.vel),
    };
    Body {
        id: b.id,
        kind: b.kind,
        shape: b.shape,
        pos: Vec2i { x: spec_clamp(b.pos.x + vel.x), y: spec_clamp(b.pos.y + vel.y) },
        vel,
    }
}

/// The whole world after one tick: if the toggle lets the subsystem step,
/// every body advances; either way the toggle accumulates one tick of
/// simulation time.
pub open spec fn spec_step(m: WorldModel, inputs: Seq<PlayerInput>) -> WorldModel {
    WorldModel {
        bodies: if m.toggle.stepping_enabled {
            Seq::new(m.bodies.len(), |k: int| spec_step_body(m.bodies[k], inputs))
        } else {
            m.bodies
        },
        toggle: spec_toggle_tick(m.toggle),
    }
}

/// Stepping preserves the world invariant.
pub proof fn lemma_step_preserves_wf(m: WorldModel, inputs: Seq<PlayerInput>)
    requires
        m.wf(),
    ensures
        spec_step(m, inputs).wf(),
{
    if m.toggle.stepping_enabled {
        assert forall|k: int| 0 <= k < m.bodies.len() implies body_wf(
            #[trigger] spec_step(m, inputs).bodies[k],
        ) && spec_step(m, inputs).bodies[k].id == k by {
            assert(body_wf(m.bodies[k]));
        }
    }
}

/// Clamps a coordinate to the arena.
pub fn clamp_coord(v: i64) -> (r: i64)
    ensures
        r == spec_clamp(v as int),
{
    if v < ARENA_MIN {
        ARENA_MIN
    } else if v > ARENA_MAX {
        ARENA_MAX
    } else {
        v
    }
}

/// Advances one body by one tick.
fn step_body(b: &Body, inputs: &Vec<PlayerInput>) -> (r: Body)
    requires
        body_wf(*b),
    ensures
        r == spec_step_body(*b, inputs@),
{
    let vel: Vec2i = match b.kind {
        BodyKind::PlayerControlled { handle } => {
            if handle < inputs.len() {
                let i = inputs[handle];
                let vx: i64 = (if i.right {
                    PLAYER_SPEED
                } else {
                    0
                }) - (if i.left {
                    PLAYER_SPEED
                } else {
                    0
                });
                let vy: i64 = (if i.up {
                    PLAYER_SPEED
                } else {
                    0
                }) - (if i.down {
                    PLAYER_SPEED
                } else {
                    0
                });
                Vec2i { x: vx, y: vy }
            } else {
                b.vel
            }
        },
        BodyKind::Free => {
            let vy: i64 = if b.vel.y - GRAVITY < -TERMINAL_SPEED {
                -TERMINAL_SPEED
            } else {
                b.vel.y - GRAVITY
            };
            Vec2i { x: b.vel.x, y: vy }
        },
    };
    Body {
        id: b.id,
        kind: b.kind,
        shape: b.shape,
        pos: Vec2i { x: clamp_coord(b.pos.x + vel.x), y: clamp_coord(b.pos.y + vel.y) },
        vel,
    }
}

/// Advances the world by one fixed tick.  This is the one deterministic
/// code path that both live ticks and resimulated ticks run through.
pub fn step_world(w: &World, inputs: &Vec<PlayerInput>) -> (r: World)
    requires
        w@.wf(),
    ensures
        r@ == spec_step(w@, inputs@),
        r@.wf(),
{
    let toggle = toggle_tick(&w.toggle);
    let mut bodies: Vec<Body> = Vec::new();
    if w.toggle.stepping_enabled {
        let mut i: usize = 0;
        while i < w.bodies.len()
            invariant
                w@.wf(),
                i <= w.bodies@.len(),
                bodies@ =~= Seq::new(i as nat, |k: int| spec_step_body(w.bodies@[k], inputs@)),
            decreases w.bodies@.len() - i,
        {
            let b = step_body(&w.bodies[i], inputs);
            bodies.push(b);
            i = i + 1;
        }
        proof {
            assert(bodies@ =~= Seq::new(w.bodies@.len(), |k: int| spec_step_body(w.bodies@[k], inputs@)));
        }
    } else {
        let mut i: usize = 0;
        while i < w.bodies.len()
            invariant
                i <= w.bodies@.len(),
                bodies@ =~= w.bodies@.take(i as int),
            decreases w.bodies@.len() - i,
        {
            bodies.push(w.bodies[i]);
            i = i + 1;
        }
        proof {
            assert(bodies@ =~= w.bodies@);
        }
    }
    let r = World { bodies, toggle };
    proof {
        assert(r@ =~= spec_step(w@, inputs@));
        lemma_step_preserves_wf(w@, inputs@);
    }
    r
}

/// Copies the tracked state field for field.  This is the bit-copy
/// snapshot path: bodies are plain data, so a field copy is a faithful
/// snapshot.
pub fn copy_world(w: &World) -> (r: World)
    ensures
        r@ == w@,
{
    let mut bodies: Vec<Body> = Vec::new();
    let mut i: usize = 0;
    while i < w.bodies.len()
        invariant
            i <= w.bodies@.len(),
            bodies@ =~= w.bodies@.take(i as int),
        decreases w.bodies@.len() - i,
    {
        bodies.push(w.bodies[i]);
        i = i + 1;
    }
    proof {
        assert(bodies@ =~= w.bodies@);
        assert((World { bodies, toggle: w.toggle })@ =~= w@);
    }
    World { bodies, toggle: w.toggle }
}

/// Whether two worlds hold bit-identical tracked state.
pub fn worlds_equal(a: &World, b: &World) -> (r: bool)
    ensures
        r == (a@ =~= b@),
{
    if a.bodies.len() != b.bodies.len() {
        return false;
    }
    if a.toggle != b.toggle {
        return false;
    }
    let mut i: usize = 0;
    while i < a.bodies.len()
        invariant
            i <= a.bodies@.len(),
            a.bodies@.len() == b.bodies@.len(),
            a.toggle == b.toggle,
            forall|k: int| 0 <= k < i ==> a.bodies@[k] == b.bodies@[k],
        decreases a.bodies@.len() - i,
    {
        if a.bodies[i] != b.bodies[i] {
            return false;
        }
        i = i + 1;
    }
    proof {
        assert(a@.bodies =~= b@.bodies);
    }
    true
}

} // verus!
