//! The conditional subsystem switch: a rollback-safe, simulation-time-driven
//! on/off toggle for an optional sub-step.
//!
//! The flag flips once accumulated *simulation* time (counted in ticks,
//! never wall-clock time) crosses a threshold.  Both the flag and the tick
//! accumulator are part of the snapshot-tracked state, so resimulation
//! reproduces the exact same toggle frame regardless of real-time pacing.

use vstd::prelude::*;

verus! {

/// The toggle's rollback-tracked state: how many simulation ticks have
/// accumulated, the threshold at which the flag flips, and the flag itself.
#[derive(Clone, Copy, PartialEq, Eq, Structural, Debug)]
pub struct Toggle {
    /// Accumulated simulation ticks.
    pub elapsed_ticks: u64,
    /// The flag flips once `elapsed_ticks` reaches this value.
    pub threshold_ticks: u64,
    /// Whether the dependent subsystem currently steps.
    pub stepping_enabled: bool,
}

impl Toggle {
    /// The flag is always exactly the accumulated-time condition: it carries
    /// no information of its own, so a restored snapshot can never disagree
    /// with its accumulator.
    pub open spec fn wf(self) -> bool {
        self.stepping_enabled == (self.elapsed_ticks >= self.threshold_ticks)
    }

    /// A toggle that engages once `threshold_ticks` simulation ticks have
    /// accumulated.
    pub open spec fn spec_new(threshold_ticks: u64) -> Toggle {
        Toggle { elapsed_ticks: 0, threshold_ticks, stepping_enabled: threshold_ticks == 0 }
    }

    /// Creates a toggle that is off until `threshold_ticks` ticks of
    /// simulation time have accumulated.
    pub fn new(threshold_ticks: u64) -> (g: Toggle)
        ensures
            g == Toggle::spec_new(threshold_ticks),
            g.wf(),
    {
        Toggle { elapsed_ticks: 0, threshold_ticks, stepping_enabled: threshold_ticks == 0 }
    }
}

/// The toggle after one simulation tick: the accumulator grows by one
/// (saturating at its ceiling) and the flag follows the threshold condition.
pub open spec fn spec_toggle_tick(g: Toggle) -> Toggle {
    let e = if g.elapsed_ticks == u64::MAX {
        u64::MAX
    } else {
        (g.elapsed_ticks + 1) as u64
    };
    Toggle { elapsed_ticks: e, threshold_ticks: g.threshold_ticks, stepping_enabled: e >= g.threshold_ticks }
}

/// Advances the toggle by one tick of simulation time.
pub fn toggle_tick(g: &Toggle) -> (r: Toggle)
    ensures
        r == spec_toggle_tick(*g),
        r.wf(),
{
    let e: u64 = if g.elapsed_ticks == u64::MAX {
        u64::MAX
    } else {
        g.elapsed_ticks + 1
    };
    Toggle { elapsed_ticks: e, threshold_ticks: g.threshold_ticks, stepping_enabled: e >= g.threshold_ticks }
}

/// The toggle after `n` simulation ticks.
pub open spec fn spec_toggle_after(g: Toggle, n: nat) -> Toggle
    decreases n,
{
    if n == 0 {
        g
    } else {
        spec_toggle_tick(spec_toggle_after(g, (n - 1) as nat))
    }
}

/// Toggle determinism: after `n` ticks of simulation time the flag is exactly
/// the threshold condition on the accumulated tick count.  The toggle frame
/// is a function of simulation time alone, so it falls on the same frame
/// whether that frame is reached live or by resimulation, independent of
/// real-time pacing.
pub proof fn lemma_toggle_determinism(g: Toggle, n: nat)
    requires
        g.elapsed_ticks + n <= u64::MAX,
    ensures
        spec_toggle_after(g, n).elapsed_ticks == g.elapsed_ticks + n,
        spec_toggle_after(g, n).threshold_ticks == g.threshold_ticks,
        n > 0 ==> spec_toggle_after(g, n).stepping_enabled == (g.elapsed_ticks + n
            >= g.threshold_ticks),
    decreases n,
{
    if n > 0 {
        lemma_toggle_determinism(g, (n - 1) as nat);
    }
}

/// The flag flips exactly once: off strictly before the threshold is
/// reached, on from the threshold tick onward.
pub proof fn lemma_toggle_flips_once(threshold_ticks: u64, n: nat)
    requires
        n <= u64::MAX,
    ensures
        spec_toggle_after(Toggle::spec_new(threshold_ticks), n).stepping_enabled == (n
            >= threshold_ticks),
{
    if n == 0 {
    } else {
        lemma_toggle_determinism(Toggle::spec_new(threshold_ticks), n);
    }
}

} // verus!
