//! The frame clock: confirmed versus current simulation frame numbers, and
//! the transient rollback status recomputed each tick.

use vstd::prelude::*;

verus! {

/// The larger of two frame numbers.
pub open spec fn spec_max_u64(a: u64, b: u64) -> u64 {
    if a >= b {
        a
    } else {
        b
    }
}

/// Frame counters for one peer's simulation.
#[derive(Clone, Copy, PartialEq, Eq, Structural, Debug)]
pub struct FrameClock {
    /// Highest frame for which all peers' true inputs are known.  Never
    /// decreases.
    pub confirmed: u64,
    /// The frame currently being simulated; may run ahead of `confirmed` by
    /// up to the prediction window.
    pub current: u64,
}

impl FrameClock {
    /// A clock at the start of a session.
    pub open spec fn spec_start() -> FrameClock {
        FrameClock { confirmed: 0, current: 0 }
    }

    /// Returns the clock a fresh session starts with.
    pub fn start() -> (r: FrameClock)
        ensures
            r == FrameClock::spec_start(),
    {
        FrameClock { confirmed: 0, current: 0 }
    }
}

/// Raises the confirmed frame to what the session reports, never lowering
/// it: a late or reordered report can never move confirmation backwards.
pub fn observe_confirmed(clock: &mut FrameClock, session_confirmed: u64)
    ensures
        final(clock).confirmed == spec_max_u64(old(clock).confirmed, session_confirmed),
        final(clock).current == old(clock).current,
{
    if session_confirmed > clock.confirmed {
        clock.confirmed = session_confirmed;
    }
}

/// Whether the simulation is advancing normally or rewinding, recomputed
/// each tick from the frame numbers alone.
#[derive(Clone, Copy, PartialEq, Eq, Structural, Debug)]
pub enum RollbackStatus {
    /// Advancing forward.
    Normal,
    /// Rewound from frame `from` to resimulate from frame `to`.
    RollingBack { from: u64, to: u64 },
}

/// Classifies a tick: a session frame behind the previously simulated frame
/// means a rollback to it; anything else is a normal advance.
pub fn rollback_status(previous_frame: u64, session_frame: u64) -> (r: RollbackStatus)
    ensures
        session_frame < previous_frame ==> r == (RollbackStatus::RollingBack {
            from: previous_frame,
            to: session_frame,
        }),
        session_frame >= previous_frame ==> r == RollbackStatus::Normal,
{
    if session_frame < previous_frame {
        RollbackStatus::RollingBack { from: previous_frame, to: session_frame }
    } else {
        RollbackStatus::Normal
    }
}

} // verus!
