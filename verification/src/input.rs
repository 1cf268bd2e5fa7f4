//! Input collection: the fixed-width packed input record, its byte layout,
//! the per-peer input status, and the deterministic policy for disconnected
//! peers.
//!
//! The record is two bytes: bit 0 = left, bit 1 = right, bit 2 = up,
//! bit 3 = down, bit 4 = action; bits 5..7 and the second byte are reserved
//! and must be zero.  The layout is plain data, identical on every peer.

use vstd::prelude::*;

verus! {

/// Size in bytes of one packed input record.
pub const INPUT_RECORD_BYTES: usize = 2;

/// One player's raw input for one tick: quantized movement axes and a
/// discrete action bit.
#[derive(Clone, Copy, PartialEq, Eq, Structural, Debug)]
pub struct PlayerInput {
    pub left: bool,
    pub right: bool,
    pub up: bool,
    pub down: bool,
    pub action: bool,
}

impl PlayerInput {
    /// The deterministic default input substituted for a disconnected peer:
    /// no movement, no action.  It must never be random, so that every peer
    /// resimulates identically.
    pub open spec fn spec_default_input() -> PlayerInput {
        PlayerInput { left: false, right: false, up: false, down: false, action: false }
    }

    /// Returns the deterministic default input.
    pub fn default_input() -> (r: PlayerInput)
        ensures
            r == PlayerInput::spec_default_input(),
    {
        PlayerInput { left: false, right: false, up: false, down: false, action: false }
    }
}

/// The first byte of the packed record for `i`.
pub open spec fn spec_input_byte(i: PlayerInput) -> u8 {
    ((if i.left { 1int } else { 0int }) + (if i.right { 2int } else { 0int }) + (if i.up {
        4int
    } else {
        0int
    }) + (if i.down { 8int } else { 0int }) + (if i.action { 16int } else { 0int })) as u8
}

/// The full packed record for `i`: the bit byte followed by a reserved zero
/// byte.
pub open spec fn spec_encode(i: PlayerInput) -> Seq<u8> {
    seq![spec_input_byte(i), 0u8]
}

/// Why a byte buffer failed to decode as an input record.
#[derive(Clone, Copy, PartialEq, Eq, Structural, Debug)]
pub enum DecodeError {
    /// The buffer holds fewer bytes than one record.
    UndersizedRecord,
    /// The buffer has the wrong length or sets a reserved bit: the peers do
    /// not agree on the record shape.
    MalformedRecord,
}

/// The input record that `bytes` decodes to, or the error it fails with.
pub open spec fn spec_decode(bytes: Seq<u8>) -> Result<PlayerInput, DecodeError> {
    if bytes.len() < INPUT_RECORD_BYTES {
        Err(DecodeError::UndersizedRecord)
    } else if bytes.len() > INPUT_RECORD_BYTES {
        Err(DecodeError::MalformedRecord)
    } else if bytes[0] >= 32 || bytes[1] != 0 {
        Err(DecodeError::MalformedRecord)
    } else {
        Ok(
            PlayerInput {
                left: bytes[0] as int % 2 == 1,
                right: (bytes[0] as int / 2) % 2 == 1,
                up: (bytes[0] as int / 4) % 2 == 1,
                down: (bytes[0] as int / 8) % 2 == 1,
                action: (bytes[0] as int / 16) % 2 == 1,
            },
        )
    }
}

/// Packs `i` into its fixed two-byte record.
pub fn encode_input(i: &PlayerInput) -> (r: Vec<u8>)
    ensures
        r@ == spec_encode(*i),
        r@.len() == INPUT_RECORD_BYTES,
{
    let mut byte: u8 = 0;
    if i.left {
        byte = byte + 1;
    }
    if i.right {
        byte = byte + 2;
    }
    if i.up {
        byte = byte + 4;
    }
    if i.down {
        byte = byte + 8;
    }
    if i.action {
        byte = byte + 16;
    }
    let mut r: Vec<u8> = Vec::new();
    r.push(byte);
    r.push(0);
    proof {
        assert(r@ =~= spec_encode(*i));
    }
    r
}

/// Unpacks a received record.  A record of the wrong size or with a reserved
/// bit set is a fatal decode error: all peers must agree on the input shape
/// or determinism is void.
pub fn decode_input(bytes: &[u8]) -> (r: Result<PlayerInput, DecodeError>)
    ensures
        r == spec_decode(bytes@),
{
    if bytes.len() < INPUT_RECORD_BYTES {
        Err(DecodeError::UndersizedRecord)
    } else if bytes.len() > INPUT_RECORD_BYTES {
        Err(DecodeError::MalformedRecord)
    } else if bytes[0] >= 32 || bytes[1] != 0 {
        Err(DecodeError::MalformedRecord)
    } else {
        let b = bytes[0];
        Ok(
            PlayerInput {
                left: b % 2 == 1,
                right: (b / 2) % 2 == 1,
                up: (b / 4) % 2 == 1,
                down: (b / 8) % 2 == 1,
                action: (b / 16) % 2 == 1,
            },
        )
    }
}

/// Decoding a packed record recovers exactly the input it was packed from:
/// the two-byte layout loses nothing.
pub proof fn lemma_encode_decode(i: PlayerInput)
    ensures
        spec_decode(spec_encode(i)) == Ok::<PlayerInput, DecodeError>(i),
{
}

/// Every well-formed record is the encoding of the input it decodes to: the
/// layout has no redundant representations.
pub proof fn lemma_decode_encode(bytes: Seq<u8>, i: PlayerInput)
    requires
        spec_decode(bytes) == Ok::<PlayerInput, DecodeError>(i),
    ensures
        spec_encode(i) =~= bytes,
{
}

/// What the session reports for one remote player at one frame.
#[derive(Clone, Copy, PartialEq, Eq, Structural, Debug)]
pub enum InputStatus {
    /// The peer's true input for this frame is known and will never change.
    Confirmed(PlayerInput),
    /// A speculative input; a later correction may trigger a rollback.
    Predicted(PlayerInput),
    /// The peer is gone; its input must be substituted deterministically.
    Disconnected,
}

/// The input actually fed to the simulation for `status`.
pub open spec fn spec_resolve_input(status: InputStatus) -> PlayerInput {
    match status {
        InputStatus::Confirmed(i) => i,
        InputStatus::Predicted(i) => i,
        InputStatus::Disconnected => PlayerInput::spec_default_input(),
    }
}

/// Maps a per-peer input status to the input the simulation uses: confirmed
/// and predicted inputs pass through; a disconnected peer always gets the
/// deterministic default, never a random or stale value.
pub fn resolve_input(status: &InputStatus) -> (r: PlayerInput)
    ensures
        r == spec_resolve_input(*status),
{
    match status {
        InputStatus::Confirmed(i) => *i,
        InputStatus::Predicted(i) => *i,
        InputStatus::Disconnected => PlayerInput::default_input(),
    }
}

/// One player's per-frame input history as the session sees it: the inputs
/// known so far (index = the frame the input applies at), and the frame
/// from which the player is void, if any.
#[derive(Debug)]
pub struct InputQueue {
    /// `inputs[f]` is the input applied at frame `f`.  The first
    /// `input_delay` entries are the deterministic default: an input
    /// submitted at tick `t` applies at frame `t + input_delay`.
    pub inputs: Vec<PlayerInput>,
    /// The frame from this player's inputs degrade to the deterministic
    /// default, once it disconnected.
    pub disconnected_at: Option<u64>,
}

/// What a queue reports for `frame`: a void player from its disconnect
/// frame onward; a known input as confirmed; past the known history, the
/// latest known input as a prediction (the default if nothing is known
/// yet).
pub open spec fn spec_fetch(
    inputs: Seq<PlayerInput>,
    disconnected_at: Option<u64>,
    frame: u64,
) -> InputStatus {
    if disconnected_at matches Some(d) && frame >= d {
        InputStatus::Disconnected
    } else if frame < inputs.len() {
        InputStatus::Confirmed(inputs[frame as int])
    } else if inputs.len() > 0 {
        InputStatus::Predicted(inputs.last())
    } else {
        InputStatus::Predicted(PlayerInput::spec_default_input())
    }
}

impl InputQueue {
    /// A queue at session start: the first `input_delay` frames carry the
    /// deterministic default input, so the first submitted input applies
    /// `input_delay` frames after tick zero.
    pub fn new(input_delay: usize) -> (r: InputQueue)
        ensures
            r.inputs@.len() == input_delay,
            forall|f: int|
                0 <= f < input_delay ==> r.inputs@[f] == PlayerInput::spec_default_input(),
            r.disconnected_at is None,
    {
        let mut inputs: Vec<PlayerInput> = Vec::new();
        let mut k: usize = 0;
        while k < input_delay
            invariant
                k <= input_delay,
                inputs@.len() == k,
                forall|f: int| 0 <= f < k ==> inputs@[f] == PlayerInput::spec_default_input(),
            decreases input_delay - k,
        {
            inputs.push(PlayerInput::default_input());
            k = k + 1;
        }
        InputQueue { inputs, disconnected_at: None }
    }

    /// Submits this player's input for the next unsubmitted tick: exactly
    /// one input per tick, applied at frame `old(self).inputs@.len()`.
    pub fn submit(&mut self, input: PlayerInput)
        ensures
            final(self).inputs@ == old(self).inputs@.push(input),
            final(self).disconnected_at == old(self).disconnected_at,
    {
        self.inputs.push(input);
    }

    /// Marks the player void from `frame` onward, unless it already
    /// disconnected earlier.
    pub fn disconnect(&mut self, frame: u64)
        ensures
            final(self).inputs@ == old(self).inputs@,
            old(self).disconnected_at is None ==> final(self).disconnected_at == Some(frame),
            old(self).disconnected_at is Some ==> final(self).disconnected_at
                == old(self).disconnected_at,
    {
        if self.disconnected_at.is_none() {
            self.disconnected_at = Some(frame);
        }
    }

    /// Reports this player's input status for `frame`, exactly as
    /// [`spec_fetch`] says: void players are `Disconnected`, known frames
    /// are `Confirmed`, unknown frames are `Predicted` from the latest
    /// known input.
    pub fn fetch(&self, frame: u64) -> (r: InputStatus)
        ensures
            r == spec_fetch(self.inputs@, self.disconnected_at, frame),
    {
        if let Some(d) = self.disconnected_at {
            if frame >= d {
                return InputStatus::Disconnected;
            }
        }
        let len = self.inputs.len();
        if frame < len as u64 {
            InputStatus::Confirmed(self.inputs[frame as usize])
        } else if len > 0 {
            InputStatus::Predicted(self.inputs[len - 1])
        } else {
            InputStatus::Predicted(PlayerInput::default_input())
        }
    }
}

/// Gathers the inputs the simulation steps frame `frame` with: one per
/// player, in handle order, each fetched from that player's queue and
/// resolved by the deterministic policy.
pub fn resolve_frame_inputs(queues: &Vec<InputQueue>, frame: u64) -> (r: Vec<PlayerInput>)
    ensures
        r@.len() == queues@.len(),
        forall|h: int|
            0 <= h < queues@.len() ==> r@[h] == spec_resolve_input(
                spec_fetch(queues@[h].inputs@, queues@[h].disconnected_at, frame),
            ),
{
    let mut r: Vec<PlayerInput> = Vec::new();
    let mut h: usize = 0;
    while h < queues.len()
        invariant
            h <= queues@.len(),
            r@.len() == h,
            forall|j: int|
                0 <= j < h ==> r@[j] == spec_resolve_input(
                    spec_fetch(queues@[j].inputs@, queues@[j].disconnected_at, frame),
                ),
        decreases queues@.len() - h,
    {
        let status = queues[h].fetch(frame);
        r.push(resolve_input(&status));
        h = h + 1;
    }
    r
}

} // verus!
