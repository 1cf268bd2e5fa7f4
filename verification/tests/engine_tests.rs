use rollback_core::frames::RollbackStatus;
use rollback_core::toggle::Toggle;
use rollback_core::input::PlayerInput;
use rollback_core::registry::TrackingPlan;
use rollback_core::rollback::{MissingSnapshotError, RollbackEngine};
use rollback_core::startup;
use rollback_core::world::{copy_world, worlds_equal};

fn idle() -> PlayerInput {
    PlayerInput::default_input()
}

fn right() -> PlayerInput {
    PlayerInput { left: false, right: true, up: false, down: false, action: false }
}

fn up() -> PlayerInput {
    PlayerInput { left: false, right: false, up: true, down: false, action: false }
}

/// A scripted, deterministic input log: player 0 alternates right and up,
/// player 1 idles every third tick and otherwise moves right.
fn scripted_inputs(tick: u64) -> Vec<PlayerInput> {
    let a = if tick % 2 == 0 { right() } else { up() };
    let b = if tick % 3 == 0 { idle() } else { right() };
    vec![a, b]
}

fn engine_with_toggle_open(prediction_window: u64) -> RollbackEngine {
    let mut s = startup();
    s.world.toggle = Toggle::new(0);
    RollbackEngine::new(s.world, prediction_window, TrackingPlan::default_plan())
}

#[test]
fn determinism_identical_logs_give_identical_checksums() {
    let mut a = engine_with_toggle_open(8);
    let mut b = engine_with_toggle_open(8);
    for tick in 0..120u64 {
        let inputs = scripted_inputs(tick);
        a.advance(&inputs, tick + 1);
        b.advance(&inputs, tick + 1);
        assert_eq!(a.frame_checksum(), b.frame_checksum(), "desync at tick {tick}");
    }
    assert!(worlds_equal(&a.world, &b.world));
}

#[test]
fn replay_reproduces_the_live_states() {
    let mut e = engine_with_toggle_open(10);
    let mut logs: Vec<Vec<PlayerInput>> = Vec::new();
    for tick in 0..8u64 {
        let inputs = scripted_inputs(tick);
        logs.push(inputs.clone());
        // Nothing confirmed yet: every snapshot stays retained.
        e.advance(&inputs, 0);
    }
    let live_world = copy_world(&e.world);
    let live_checksum = e.frame_checksum();

    // Roll back to frame 3 and resimulate frames 3..8 with inputs
    // identical to the originals.
    let corrected: Vec<Vec<PlayerInput>> = logs[3..].to_vec();
    let r = e.rollback_to(3, &corrected);
    assert_eq!(r, Ok(()));
    assert_eq!(e.status, RollbackStatus::RollingBack { from: 8, to: 3 });
    assert_eq!(e.clock.current, 8);
    assert!(worlds_equal(&e.world, &live_world));
    assert_eq!(e.frame_checksum(), live_checksum);
}

#[test]
fn rollback_with_corrected_inputs_changes_the_outcome() {
    let mut e = engine_with_toggle_open(10);
    for _tick in 0..5u64 {
        e.advance(&vec![right(), idle()], 0);
    }
    let speculative = copy_world(&e.world);
    // The true historical inputs turn out to be different.
    let corrected = vec![vec![idle(), idle()]; 5];
    assert_eq!(e.rollback_to(0, &corrected), Ok(()));
    assert!(!worlds_equal(&e.world, &speculative));
    // Player 0 never actually moved.
    assert_eq!(e.world.bodies[1].pos.x, -10);
}

#[test]
fn eviction_bars_rollback_behind_the_window() {
    let window = 5u64;
    let mut e = engine_with_toggle_open(window);
    for tick in 0..10u64 {
        // Lossless: every frame is confirmed as soon as it is simulated.
        e.advance(&scripted_inputs(tick), tick + 1);
    }
    assert_eq!(e.clock.confirmed, 10);
    // ConfirmedFrame exceeds 3 + prediction_window, so the snapshot for
    // frame 3 is no longer retained and the rollback must fail.
    let corrected = vec![vec![idle(), idle()]; 7];
    assert_eq!(
        e.rollback_to(3, &corrected),
        Err(MissingSnapshotError { target: 3 })
    );
    // A target inside the window still works.
    let recent = vec![vec![idle(), idle()]; 3];
    assert_eq!(e.rollback_to(7, &recent), Ok(()));
}

#[test]
fn toggle_toggles_at_the_same_frame_live_or_resimulated() {
    let threshold = 10u64;
    let mut s = startup();
    s.world.toggle = Toggle::new(threshold);
    let mut e = RollbackEngine::new(s.world, 20, TrackingPlan::default_plan());

    let mut logs: Vec<Vec<PlayerInput>> = Vec::new();
    let mut live_toggle_tick: Option<u64> = None;
    for tick in 0..15u64 {
        let before = e.world.toggle.stepping_enabled;
        let inputs = scripted_inputs(tick);
        logs.push(inputs.clone());
        e.advance(&inputs, 0);
        if !before && e.world.toggle.stepping_enabled {
            assert!(live_toggle_tick.is_none(), "flag flipped twice");
            live_toggle_tick = Some(tick);
        }
    }
    assert_eq!(live_toggle_tick, Some(threshold - 1));
    assert_eq!(e.world.toggle.elapsed_ticks, 15);

    // Roll back to frame 4 and resimulate: the toggle falls on the same
    // frame, however often that frame is replayed.
    for _ in 0..3 {
        let corrected: Vec<Vec<PlayerInput>> = logs[4..].to_vec();
        assert_eq!(e.rollback_to(4, &corrected), Ok(()));
        let mut w = e.store.restore(4).unwrap();
        let mut resim_toggle_tick: Option<u64> = None;
        for (k, inputs) in logs[4..].iter().enumerate() {
            let before = w.toggle.stepping_enabled;
            w = rollback_core::world::step_world(&w, inputs);
            if !before && w.toggle.stepping_enabled {
                resim_toggle_tick = Some(4 + k as u64);
            }
        }
        assert_eq!(resim_toggle_tick, live_toggle_tick);
        assert!(worlds_equal(&w, &e.world));
    }
}

#[test]
fn snapshots_are_retained_across_the_window() {
    let mut e = engine_with_toggle_open(4);
    for tick in 0..6u64 {
        e.advance(&scripted_inputs(tick), tick + 1);
    }
    // confirmed == 6, so frames 2..6 must still be retained.
    for f in 2..6u64 {
        assert!(e.store.restore(f).is_ok(), "snapshot for frame {f} missing");
    }
    assert!(e.store.restore(1).is_err());
}

#[test]
fn confirmed_frame_never_decreases() {
    let mut e = engine_with_toggle_open(8);
    e.advance(&scripted_inputs(0), 1);
    assert_eq!(e.clock.confirmed, 1);
    // A late, reordered confirmation report cannot lower it.
    e.advance(&scripted_inputs(1), 0);
    assert_eq!(e.clock.confirmed, 1);
    e.advance(&scripted_inputs(2), 3);
    assert_eq!(e.clock.confirmed, 3);
}
