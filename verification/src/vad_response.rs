//! Binary reply frame for affective results, sent back over UDP.
//!
//! Wire format, 34 bytes, little-endian: sensor id (u32), sequence (u64),
//! activity flag (u8), kind (u8), then five 32-bit IEEE-754 fields —
//! energy, energy threshold, valence, arousal, dominance. The library
//! carries the four-byte float fields as their exact bit patterns, so a
//! value put in comes back out bit for bit.

use vstd::prelude::*;

use crate::wire::{push_u32_le, push_u64_le, spec_u32_bytes, spec_u32_le, spec_u64_bytes};

verus! {

/// Byte size of a serialized affective reply.
pub const VAD_RESPONSE_SIZE: usize = 34;

/// Wire value of the audio kind.
pub const VAD_KIND_AUDIO: u8 = 1;

/// Wire value of the emotional kind.
pub const VAD_KIND_EMOTIONAL: u8 = 2;

/// An affective reply, ready for serialization. The `*_bits` fields hold
/// 32-bit IEEE-754 bit patterns.
#[derive(Debug, Clone, Copy, PartialEq, Eq, Structural)]
pub struct VadResponsePacket {
    pub sensor_id: u32,
    pub seq: u64,
    pub is_active: u8,
    pub kind: u8,
    pub energy_bits: u32,
    pub threshold_bits: u32,
    pub valence_bits: u32,
    pub arousal_bits: u32,
    pub dominance_bits: u32,
}

/// The 34 bytes of a serialized affective reply.
pub open spec fn spec_vad_response_bytes(p: VadResponsePacket) -> Seq<u8> {
    spec_u32_bytes(p.sensor_id) + spec_u64_bytes(p.seq) + seq![p.is_active, p.kind]
        + spec_u32_bytes(p.energy_bits) + spec_u32_bytes(p.threshold_bits) + spec_u32_bytes(
        p.valence_bits,
    ) + spec_u32_bytes(p.arousal_bits) + spec_u32_bytes(p.dominance_bits)
}

impl VadResponsePacket {
    /// Serialize to the 34-byte little-endian wire form.
    pub fn to_bytes(&self) -> (r: Vec<u8>)
        ensures
            r@ == spec_vad_response_bytes(*self),
            r@.len() == VAD_RESPONSE_SIZE,
    {
        let mut out: Vec<u8> = Vec::with_capacity(VAD_RESPONSE_SIZE);
        push_u32_le(&mut out, self.sensor_id);
        push_u64_le(&mut out, self.seq);
        out.push(self.is_active);
        out.push(self.kind);
        push_u32_le(&mut out, self.energy_bits);
        push_u32_le(&mut out, self.threshold_bits);
        push_u32_le(&mut out, self.valence_bits);
        push_u32_le(&mut out, self.arousal_bits);
        push_u32_le(&mut out, self.dominance_bits);
        proof {
            assert(out@ =~= spec_vad_response_bytes(*self));
        }
        out
    }
}

/// The serialized reply is exactly 34 bytes, and each four-byte float
/// field reads back as exactly the bit pattern that was put in: the
/// floats of a reply survive the frame without loss.
pub proof fn lemma_vad_response_round_trip(p: VadResponsePacket)
    ensures
        ({
            let b = spec_vad_response_bytes(p);
            &&& b.len() == VAD_RESPONSE_SIZE
            &&& spec_u32_le(b[0], b[1], b[2], b[3]) == p.sensor_id
            &&& crate::wire::spec_u64_le(b.subrange(4, 12)) == p.seq
            &&& b[12] == p.is_active
            &&& b[13] == p.kind
            &&& spec_u32_le(b[14], b[15], b[16], b[17]) == p.energy_bits
            &&& spec_u32_le(b[18], b[19], b[20], b[21]) == p.threshold_bits
            &&& spec_u32_le(b[22], b[23], b[24], b[25]) == p.valence_bits
            &&& spec_u32_le(b[26], b[27], b[28], b[29]) == p.arousal_bits
            &&& spec_u32_le(b[30], b[31], b[32], b[33]) == p.dominance_bits
        }),
{
    let b = spec_vad_response_bytes(p);
    crate::wire::lemma_u32_le_roundtrip(p.sensor_id);
    crate::wire::lemma_u32_le_roundtrip(p.energy_bits);
    crate::wire::lemma_u32_le_roundtrip(p.threshold_bits);
    crate::wire::lemma_u32_le_roundtrip(p.valence_bits);
    crate::wire::lemma_u32_le_roundtrip(p.arousal_bits);
    crate::wire::lemma_u32_le_roundtrip(p.dominance_bits);
    crate::wire::lemma_u64_le_roundtrip(p.seq);
    assert(b.subrange(4, 12) =~= spec_u64_bytes(p.seq));
}

} // verus!
