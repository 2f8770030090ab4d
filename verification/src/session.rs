//! Per-device session record: lifecycle state, sequence tracking, the
//! accumulated PCM buffer and the loss counter.

use vstd::prelude::*;

verus! {

/// Lifecycle state of a device audio session.
#[derive(Debug, Clone, Copy, PartialEq, Eq, Structural)]
pub enum SessionState {
    /// No active session — waiting for a session start command.
    Idle,
    /// Session active — receiving audio from the device.
    Receiving,
    /// Device signalled end — server is processing the accumulated audio.
    Processing,
    /// Server is streaming an audio response back to the device.
    Responding,
}

impl SessionState {
    /// The state's lowercase name.
    pub fn name(&self) -> (r: &'static str)
        ensures
            self is Idle ==> r@ == "idle"@,
            self is Receiving ==> r@ == "receiving"@,
            self is Processing ==> r@ == "processing"@,
            self is Responding ==> r@ == "responding"@,
    {
        match self {
            SessionState::Idle => "idle",
            SessionState::Receiving => "receiving",
            SessionState::Processing => "processing",
            SessionState::Responding => "responding",
        }
    }
}

/// The sequence number expected after `last`: its 16-bit wrapping
/// successor.
pub open spec fn spec_expected_seq(last: u16) -> u16 {
    if last == 0xffff {
        0
    } else {
        (last + 1) as u16
    }
}

/// The unsigned 16-bit wrapping distance from `expected` to `seq`: the
/// number of frames missing when `seq` arrives where `expected` was due.
pub open spec fn spec_seq_gap(seq: u16, expected: u16) -> u16 {
    if seq >= expected {
        (seq - expected) as u16
    } else {
        (seq - expected + 0x1_0000) as u16
    }
}

/// Tracks the state and accumulated audio of a single device client.
#[derive(Debug)]
pub struct EspSession {
    pub state: SessionState,
    /// MAC address learned from a notification frame, if any.
    pub mac: Option<[u8; 6]>,
    /// Next outgoing sequence number (wraps at the 16-bit boundary).
    pub out_seq: u16,
    /// Last received sequence number.
    pub last_recv_seq: u16,
    /// Audio packets received this session.
    pub audio_packets: u32,
    /// Audio bytes received this session.
    pub audio_bytes: u64,
    /// Accumulated raw PCM buffer for the session.
    pub audio_buffer: Vec<u8>,
    /// Detected sequence gaps (lost packets).
    pub packets_lost: u32,
}

impl EspSession {
    /// A session fresh from `new` or `reset`: idle, with every counter —
    /// the packet, byte, loss and outbound sequence counters — at zero
    /// and the buffer empty.
    pub open spec fn spec_cleared(self) -> bool {
        &&& self.state is Idle
        &&& self.audio_packets == 0
        &&& self.audio_bytes == 0
        &&& self.audio_buffer@.len() == 0
        &&& self.packets_lost == 0
        &&& self.out_seq == 0
    }

    /// Create a new idle session.
    ///
    /// Pre-allocates room for about thirty seconds of 16 kHz, 16-bit,
    /// mono audio.
    pub fn new() -> (r: EspSession)
        ensures
            r.spec_cleared(),
            r.mac is None,
            r.last_recv_seq == 0,
    {
        EspSession {
            state: SessionState::Idle,
            mac: None,
            out_seq: 0,
            last_recv_seq: 0,
            audio_packets: 0,
            audio_bytes: 0,
            audio_buffer: Vec::with_capacity(16_000 * 2 * 30),
            packets_lost: 0,
        }
    }

    /// Return the next outgoing sequence number and advance the counter,
    /// wrapping at the 16-bit boundary. Nothing else changes.
    pub fn next_seq(&mut self) -> (r: u16)
        ensures
            r == old(self).out_seq,
            final(self).out_seq == spec_expected_seq(old(self).out_seq),
            *final(self) == (EspSession { out_seq: final(self).out_seq, ..*old(self) }),
    {
        let s = self.out_seq;
        self.out_seq = self.out_seq.wrapping_add(1);
        s
    }

    /// Record an incoming audio packet: append the payload to the buffer,
    /// advance the counters, and add the wrapping sequence gap to the
    /// loss counter (the first recorded packet sets no gap).
    pub fn record_audio(&mut self, seq: u16, payload: &[u8])
        requires
            old(self).audio_packets < u32::MAX,
            old(self).audio_bytes + payload@.len() <= u64::MAX,
            old(self).audio_buffer@.len() + payload@.len() <= usize::MAX,
            old(self).packets_lost + 0xffff <= u32::MAX,
        ensures
            final(self).audio_buffer@ == old(self).audio_buffer@ + payload@,
            final(self).audio_packets == old(self).audio_packets + 1,
            final(self).audio_bytes == old(self).audio_bytes + payload@.len(),
            final(self).last_recv_seq == seq,
            final(self).packets_lost == old(self).packets_lost + (if old(self).audio_packets == 0 {
                0u16
            } else {
                spec_seq_gap(seq, spec_expected_seq(old(self).last_recv_seq))
            }),
            final(self).state == old(self).state,
            final(self).out_seq == old(self).out_seq,
            final(self).mac == old(self).mac,
    {
        if self.audio_packets > 0 {
            let expected = self.last_recv_seq.wrapping_add(1);
            if seq != expected {
                let gap = seq.wrapping_sub(expected) as u32;
                self.packets_lost = self.packets_lost + gap;
            }
        }
        self.last_recv_seq = seq;
        self.audio_packets = self.audio_packets + 1;
        self.audio_bytes = self.audio_bytes + payload.len() as u64;
        self.audio_buffer.extend_from_slice(payload);
    }

    /// Reset every counter — the outbound sequence counter included —
    /// clear the buffer (capacity is retained), and return to `Idle`.
    /// The last-observed inbound sequence and the MAC survive a reset.
    pub fn reset(&mut self)
        ensures
            final(self).spec_cleared(),
            final(self).last_recv_seq == old(self).last_recv_seq,
            final(self).mac == old(self).mac,
    {
        self.state = SessionState::Idle;
        self.out_seq = 0;
        self.audio_packets = 0;
        self.audio_bytes = 0;
        self.audio_buffer.clear();
        self.packets_lost = 0;
    }
}

} // verus!
