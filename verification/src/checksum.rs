//! Desync detection: a 16-bit rolling-sum checksum over raw bytes, a
//! 64-bit per-frame digest of the tracked state, and the peer-to-peer
//! comparison that reports a divergence.

use vstd::prelude::*;

verus! {

use crate::registry::TrackingPlan;
use crate::world::Body;
use crate::world::World;
use crate::world::WorldModel;

/// The pair of rolling accumulators after folding `data`: both are kept
/// modulo 255, and the second accumulates the running total of the first.
pub open spec fn fletcher_sums(data: Seq<u8>) -> (int, int)
    decreases data.len(),
{
    if data.len() == 0 {
        (0int, 0int)
    } else {
        let prev = fletcher_sums(data.drop_last());
        let s1 = (prev.0 + data.last()) % 255;
        (s1, (prev.1 + s1) % 255)
    }
}

/// The checksum of `data`: the second accumulator in the high byte, the
/// first in the low byte.
pub open spec fn spec_fletcher16(data: Seq<u8>) -> u16 {
    (fletcher_sums(data).1 * 256 + fletcher_sums(data).0) as u16
}

/// Folds `data` through two 16-bit accumulators, each kept modulo 255, the
/// second accumulating the running total of the first; the result packs the
/// second accumulator into the high byte and the first into the low byte.
pub fn fletcher16(data: &[u8]) -> (r: u16)
    ensures
        r == spec_fletcher16(data@),
{
    let mut sum1: u16 = 0;
    let mut sum2: u16 = 0;
    let mut i: usize = 0;
    while i < data.len()
        invariant
            i <= data@.len(),
            sum1 < 255,
            sum2 < 255,
            (sum1 as int, sum2 as int) == fletcher_sums(data@.take(i as int)),
        decreases data@.len() - i,
    {
        sum1 = (sum1 + data[i] as u16) % 255;
        sum2 = (sum2 + sum1) % 255;
        i = i + 1;
        proof {
            assert(data@.take(i as int).drop_last() =~= data@.take(i as int - 1));
        }
    }
    proof {
        assert(data@.take(data@.len() as int) =~= data@);
    }
    assert((sum2 << 8) | sum1 == sum2 * 256 + sum1) by (bit_vector)
        requires
            sum1 < 255,
            sum2 < 255,
    ;
    (sum2 << 8) | sum1
}

/// The eight little-endian bytes of `u`.  This is the one raw byte layout
/// every peer serializes checksummed values with.
pub open spec fn spec_le_bytes(u: u64) -> Seq<u8> {
    seq![
        (u % 256) as u8,
        ((u / 0x100) % 256) as u8,
        ((u / 0x10000) % 256) as u8,
        ((u / 0x1000000) % 256) as u8,
        ((u / 0x100000000) % 256) as u8,
        ((u / 0x10000000000) % 256) as u8,
        ((u / 0x1000000000000) % 256) as u8,
        ((u / 0x100000000000000) % 256) as u8,
    ]
}

/// Appends the eight little-endian bytes of `u` to `out`.
pub fn push_le_bytes(out: &mut Vec<u8>, u: u64)
    ensures
        final(out)@ == old(out)@ + spec_le_bytes(u),
{
    out.push((u % 256) as u8);
    out.push(((u / 0x100) % 256) as u8);
    out.push(((u / 0x10000) % 256) as u8);
    out.push(((u / 0x1000000) % 256) as u8);
    out.push(((u / 0x100000000) % 256) as u8);
    out.push(((u / 0x10000000000) % 256) as u8);
    out.push(((u / 0x1000000000000) % 256) as u8);
    out.push(((u / 0x100000000000000) % 256) as u8);
    proof {
        assert(out@ =~= old(out)@ + spec_le_bytes(u));
    }
}

/// The two's-complement bit pattern of `x`, as an unsigned value.
pub open spec fn spec_unsigned_bits(x: i64) -> u64 {
    if x >= 0 {
        x as u64
    } else {
        (x + 0x1_0000_0000_0000_0000) as u64
    }
}

/// Reads a signed fixed-point component as its two's-complement bit
/// pattern, so that serialization never depends on a platform's signed
/// representation.
pub fn unsigned_bits(x: i64) -> (r: u64)
    ensures
        r == spec_unsigned_bits(x),
{
    if x >= 0 {
        x as u64
    } else {
        ((x as i128) + 0x1_0000_0000_0000_0000i128) as u64
    }
}

/// The checksum of one two-component fixed-point value: both components
/// serialized to raw bytes, folded through the rolling-sum checksum, and
/// widened to 64 bits.
pub open spec fn spec_checksum_pair(x: i64, y: i64) -> u64 {
    spec_fletcher16(spec_le_bytes(spec_unsigned_bits(x)) + spec_le_bytes(spec_unsigned_bits(y)))
        as u64
}

/// Checksums one two-component value: serializes both components to raw
/// bytes, folds them through `fletcher16`, and widens the result.
pub fn checksum_pair(x: i64, y: i64) -> (r: u64)
    ensures
        r == spec_checksum_pair(x, y),
{
    let mut buf: Vec<u8> = Vec::new();
    push_le_bytes(&mut buf, unsigned_bits(x));
    push_le_bytes(&mut buf, unsigned_bits(y));
    proof {
        assert(buf@ =~= spec_le_bytes(spec_unsigned_bits(x)) + spec_le_bytes(spec_unsigned_bits(y)));
    }
    fletcher16(buf.as_slice()) as u64
}

/// The checksummed values one body contributes, in the order the allow-list
/// names them: position first, then velocity.
pub open spec fn spec_body_values(b: Body, plan: TrackingPlan) -> Seq<u64> {
    (if plan.checksum_position {
        seq![spec_checksum_pair(b.pos.x, b.pos.y)]
    } else {
        Seq::empty()
    }) + (if plan.checksum_velocity {
        seq![spec_checksum_pair(b.vel.x, b.vel.y)]
    } else {
        Seq::empty()
    })
}

/// The checksummed values of all tracked bodies, walked in canonical
/// (creation) order.
pub open spec fn spec_tracked_values(bodies: Seq<Body>, plan: TrackingPlan) -> Seq<u64>
    decreases bodies.len(),
{
    if bodies.len() == 0 {
        Seq::empty()
    } else {
        spec_tracked_values(bodies.drop_last(), plan) + spec_body_values(bodies.last(), plan)
    }
}

/// The bytes that a sequence of 64-bit values serializes to, in order.
pub open spec fn spec_values_bytes(vals: Seq<u64>) -> Seq<u8>
    decreases vals.len(),
{
    if vals.len() == 0 {
        Seq::empty()
    } else {
        spec_values_bytes(vals.drop_last()) + spec_le_bytes(vals.last())
    }
}

/// Combines per-value checksums into one per-frame checksum.  The combine
/// is position-dependent, so it is taken over one fixed canonical order.
pub open spec fn spec_combine(vals: Seq<u64>) -> u64 {
    spec_fletcher16(spec_values_bytes(vals)) as u64
}

/// The per-frame checksum of a world under a registration plan: the
/// checksums of every allowed value, in canonical order, combined.
pub open spec fn spec_world_checksum(m: WorldModel, plan: TrackingPlan) -> u64 {
    spec_combine(spec_tracked_values(m.bodies, plan))
}

/// The per-value checksums of the tracked bodies, in canonical order.
pub fn tracked_values(bodies: &Vec<Body>, plan: &TrackingPlan) -> (r: Vec<u64>)
    ensures
        r@ == spec_tracked_values(bodies@, *plan),
{
    let mut vals: Vec<u64> = Vec::new();
    let mut i: usize = 0;
    while i < bodies.len()
        invariant
            i <= bodies@.len(),
            vals@ =~= spec_tracked_values(bodies@.take(i as int), *plan),
        decreases bodies@.len() - i,
    {
        let b = &bodies[i];
        if plan.checksum_position {
            vals.push(checksum_pair(b.pos.x, b.pos.y));
        }
        if plan.checksum_velocity {
            vals.push(checksum_pair(b.vel.x, b.vel.y));
        }
        i = i + 1;
        proof {
            assert(bodies@.take(i as int).drop_last() =~= bodies@.take(i as int - 1));
            assert(vals@ =~= spec_tracked_values(bodies@.take(i as int), *plan));
        }
    }
    proof {
        assert(bodies@.take(bodies@.len() as int) =~= bodies@);
    }
    vals
}

/// Combines per-value checksums into one value, in the given order.
pub fn combine_values(vals: &Vec<u64>) -> (r: u64)
    ensures
        r == spec_combine(vals@),
{
    let mut buf: Vec<u8> = Vec::new();
    let mut i: usize = 0;
    while i < vals.len()
        invariant
            i <= vals@.len(),
            buf@ =~= spec_values_bytes(vals@.take(i as int)),
        decreases vals@.len() - i,
    {
        push_le_bytes(&mut buf, vals[i]);
        i = i + 1;
        proof {
            assert(vals@.take(i as int).drop_last() =~= vals@.take(i as int - 1));
        }
    }
    proof {
        assert(vals@.take(vals@.len() as int) =~= vals@);
    }
    fletcher16(buf.as_slice()) as u64
}

/// Computes the per-frame checksum of `w` under `plan`: every allowed value
/// is checksummed in canonical creation order and the results are combined.
/// Both peers run exactly this function on confirmed frames.
pub fn world_checksum(w: &World, plan: &TrackingPlan) -> (r: u64)
    ensures
        r == spec_world_checksum(w@, *plan),
{
    let vals = tracked_values(&w.bodies, plan);
    combine_values(&vals)
}

/// A detected divergence: the confirmed frame and both checksum values, as
/// they are logged.  Non-fatal: the simulation continues, with no automatic
/// resynchronization.
#[derive(Clone, Copy, PartialEq, Eq, Structural, Debug)]
pub struct DesyncEvent {
    pub frame: u64,
    pub local_checksum: u64,
    pub remote_checksum: u64,
}

/// Compares the local and remote checksums for one confirmed frame.
/// Reports a desync exactly when they differ.
pub fn compare_checksums(frame: u64, local: u64, remote: u64) -> (r: Option<DesyncEvent>)
    ensures
        local == remote ==> r is None,
        local != remote ==> r == Some(
            DesyncEvent { frame, local_checksum: local, remote_checksum: remote },
        ),
{
    if local == remote {
        None
    } else {
        Some(DesyncEvent { frame, local_checksum: local, remote_checksum: remote })
    }
}

} // verus!
