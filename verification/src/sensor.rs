//! Sensor datagram: a 32-byte fixed little-endian header followed by a
//! variable payload, as devices send it on the sensor endpoint.
//!
//! Layout: sensor id (u32), device timestamp in microseconds (u64), data
//! type (u8), three reserved bytes, payload length (u16), two reserved
//! bytes, sequence (u64), four padding bytes, then the payload.

use vstd::prelude::*;

use crate::wire::{spec_u16_le, spec_u32_le, spec_u64_le, u16_le, u32_le, u64_le_at};

verus! {

/// Sensor data type: 16-bit little-endian PCM audio.
pub const DATA_TYPE_AUDIO: u8 = 1;

/// Sensor data type: ten 32-bit little-endian floats, one per channel.
pub const DATA_TYPE_SENSOR_VECTOR: u8 = 2;

/// Number of channels in the emotional sensor vector.
pub const SENSOR_VECTOR_LEN: usize = 10;

/// Byte size of a sensor-vector payload (ten four-byte channels).
pub const SENSOR_VECTOR_BYTES: usize = 40;

/// Fixed header size of the binary wire format.
pub const HEADER_SIZE: usize = 32;

/// The declared payload length of a sensor datagram buffer.
pub open spec fn spec_sensor_payload_len(buf: Seq<u8>) -> u16
    recommends
        buf.len() >= HEADER_SIZE,
{
    spec_u16_le(buf[16], buf[17])
}

/// A buffer holds a complete sensor datagram: a full header, and at least
/// as many payload bytes as the header declares.
pub open spec fn spec_sensor_ok(buf: Seq<u8>) -> bool {
    &&& buf.len() >= HEADER_SIZE
    &&& buf.len() >= HEADER_SIZE + spec_sensor_payload_len(buf)
}

/// A parsed sensor datagram.
#[derive(Debug, Clone)]
pub struct SensorPacket {
    pub sensor_id: u32,
    pub timestamp_us: u64,
    pub data_type: u8,
    pub seq: u64,
    pub payload: Vec<u8>,
}

impl SensorPacket {
    /// Parse a binary sensor datagram from raw bytes.
    ///
    /// Succeeds exactly when the buffer holds the 32-byte header and the
    /// declared payload length; the fields are then read off the header
    /// and the payload is the declared number of bytes after it.
    pub fn from_binary(buf: &[u8]) -> (r: Option<SensorPacket>)
        ensures
            r is Some <==> spec_sensor_ok(buf@),
            r matches Some(p) ==> {
                &&& p.sensor_id == spec_u32_le(buf@[0], buf@[1], buf@[2], buf@[3])
                &&& p.timestamp_us == spec_u64_le(buf@.subrange(4, 12))
                &&& p.data_type == buf@[12]
                &&& p.seq == spec_u64_le(buf@.subrange(20, 28))
                &&& p.payload@ == buf@.subrange(
                    HEADER_SIZE as int,
                    HEADER_SIZE + spec_sensor_payload_len(buf@),
                )
            },
    {
        if buf.len() < HEADER_SIZE {
            return None;
        }
        let sensor_id = u32_le(buf[0], buf[1], buf[2], buf[3]);
        let timestamp_us = u64_le_at(buf, 4);
        let data_type = buf[12];
        let payload_len = u16_le(buf[16], buf[17]) as usize;
        let seq = u64_le_at(buf, 20);
        if buf.len() < HEADER_SIZE + payload_len {
            return None;
        }
        let payload = vstd::slice::slice_to_vec(&buf[HEADER_SIZE..HEADER_SIZE + payload_len]);
        Some(SensorPacket { sensor_id, timestamp_us, data_type, seq, payload })
    }

    /// Parse a binary sensor datagram.
    pub fn parse(buf: &[u8]) -> (r: Option<SensorPacket>)
        ensures
            r is Some <==> spec_sensor_ok(buf@),
            r matches Some(p) ==> {
                &&& p.sensor_id == spec_u32_le(buf@[0], buf@[1], buf@[2], buf@[3])
                &&& p.timestamp_us == spec_u64_le(buf@.subrange(4, 12))
                &&& p.data_type == buf@[12]
                &&& p.seq == spec_u64_le(buf@.subrange(20, 28))
                &&& p.payload@ == buf@.subrange(
                    HEADER_SIZE as int,
                    HEADER_SIZE + spec_sensor_payload_len(buf@),
                )
            },
    {
        Self::from_binary(buf)
    }
}

} // verus!
