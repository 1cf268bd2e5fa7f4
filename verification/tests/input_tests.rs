use rollback_core::input::{
    decode_input, encode_input, resolve_input, DecodeError, InputQueue, InputStatus, PlayerInput,
    INPUT_RECORD_BYTES,
};

fn all_inputs() -> Vec<PlayerInput> {
    let mut v = Vec::new();
    for bits in 0u8..32 {
        v.push(PlayerInput {
            left: bits & 1 != 0,
            right: bits & 2 != 0,
            up: bits & 4 != 0,
            down: bits & 8 != 0,
            action: bits & 16 != 0,
        });
    }
    v
}

#[test]
fn record_is_two_bytes() {
    assert_eq!(INPUT_RECORD_BYTES, 2);
    let i = PlayerInput { left: true, right: false, up: false, down: false, action: true };
    let e = encode_input(&i);
    assert_eq!(e, vec![0b1_0001u8, 0u8]);
}

#[test]
fn encode_decode_round_trips_every_input() {
    for i in all_inputs() {
        let e = encode_input(&i);
        assert_eq!(e.len(), INPUT_RECORD_BYTES);
        assert_eq!(decode_input(&e), Ok(i));
    }
}

#[test]
fn undersized_record_is_fatal() {
    assert_eq!(decode_input(&[]), Err(DecodeError::UndersizedRecord));
    assert_eq!(decode_input(&[3u8]), Err(DecodeError::UndersizedRecord));
}

#[test]
fn oversized_record_is_malformed() {
    assert_eq!(decode_input(&[1u8, 0, 0]), Err(DecodeError::MalformedRecord));
}

#[test]
fn reserved_bits_are_malformed() {
    assert_eq!(decode_input(&[0b0010_0000u8, 0]), Err(DecodeError::MalformedRecord));
    assert_eq!(decode_input(&[0b1000_0001u8, 0]), Err(DecodeError::MalformedRecord));
    assert_eq!(decode_input(&[0u8, 1]), Err(DecodeError::MalformedRecord));
}

#[test]
fn disconnected_peer_gets_deterministic_default() {
    let d = resolve_input(&InputStatus::Disconnected);
    assert_eq!(d, PlayerInput::default_input());
    assert!(!d.left && !d.right && !d.up && !d.down && !d.action);
    let moving = PlayerInput { left: false, right: true, up: false, down: false, action: false };
    assert_eq!(resolve_input(&InputStatus::Confirmed(moving)), moving);
    assert_eq!(resolve_input(&InputStatus::Predicted(moving)), moving);
}

#[test]
fn queue_applies_input_delay() {
    let mut q = InputQueue::new(3);
    let go = PlayerInput { left: false, right: true, up: false, down: false, action: false };
    q.submit(go);
    // The first three frames carry the default; the tick-0 input applies at
    // frame 3.
    for f in 0..3u64 {
        assert_eq!(q.fetch(f), InputStatus::Confirmed(PlayerInput::default_input()));
    }
    assert_eq!(q.fetch(3), InputStatus::Confirmed(go));
}

#[test]
fn queue_predicts_from_latest_known_input() {
    let mut q = InputQueue::new(0);
    assert_eq!(
        q.fetch(0),
        InputStatus::Predicted(PlayerInput::default_input())
    );
    let go = PlayerInput { left: false, right: false, up: true, down: false, action: false };
    q.submit(go);
    assert_eq!(q.fetch(0), InputStatus::Confirmed(go));
    assert_eq!(q.fetch(7), InputStatus::Predicted(go));
}

#[test]
fn queue_reports_disconnect_from_its_frame_onward() {
    let mut q = InputQueue::new(0);
    let go = PlayerInput { left: true, right: false, up: false, down: false, action: false };
    for _ in 0..10 {
        q.submit(go);
    }
    q.disconnect(5);
    assert_eq!(q.fetch(4), InputStatus::Confirmed(go));
    assert_eq!(q.fetch(5), InputStatus::Disconnected);
    assert_eq!(q.fetch(100), InputStatus::Disconnected);
    // A later disconnect report cannot move the void frame.
    q.disconnect(8);
    assert_eq!(q.fetch(6), InputStatus::Disconnected);
}
