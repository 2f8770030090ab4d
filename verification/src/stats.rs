//! Performance counters for the receive and processing paths. The
//! counters wrap at the 64-bit boundary, as the original relaxed atomic
//! increments do; the surrounding application serializes access and turns
//! a snapshot into rates.

use vstd::prelude::*;

verus! {

/// The 64-bit wrapping sum `x + y`.
pub open spec fn spec_wrap_add64(x: u64, y: u64) -> u64 {
    if x + y > u64::MAX {
        (x + y - 0x1_0000_0000_0000_0000) as u64
    } else {
        (x + y) as u64
    }
}

/// Transport-agnostic performance counters.
#[derive(Debug, Clone, Copy, PartialEq, Eq, Structural)]
pub struct Stats {
    pub recv_packets: u64,
    pub recv_bytes: u64,
    pub processed: u64,
    pub vad_active: u64,
    pub parse_errors: u64,
    pub recv_errors: u64,
    pub channel_drops: u64,
}

/// One sampling period's counter values, taken and reset together.
#[derive(Debug, Clone, Copy, PartialEq, Eq, Structural)]
pub struct StatsSnapshot {
    pub recv_packets: u64,
    pub recv_bytes: u64,
    pub processed: u64,
    pub vad_active: u64,
    pub parse_errors: u64,
    pub recv_errors: u64,
    pub channel_drops: u64,
}

impl Stats {
    /// Every counter starts at zero.
    pub fn new() -> (r: Stats)
        ensures
            r == (Stats {
                recv_packets: 0,
                recv_bytes: 0,
                processed: 0,
                vad_active: 0,
                parse_errors: 0,
                recv_errors: 0,
                channel_drops: 0,
            }),
    {
        Stats {
            recv_packets: 0,
            recv_bytes: 0,
            processed: 0,
            vad_active: 0,
            parse_errors: 0,
            recv_errors: 0,
            channel_drops: 0,
        }
    }

    /// Count one received datagram of `bytes` bytes.
    pub fn record_recv(&mut self, bytes: usize)
        ensures
            *final(self) == (Stats {
                recv_packets: spec_wrap_add64(old(self).recv_packets, 1),
                recv_bytes: spec_wrap_add64(old(self).recv_bytes, bytes as u64),
                ..*old(self)
            }),
    {
        self.recv_packets = self.recv_packets.wrapping_add(1);
        self.recv_bytes = self.recv_bytes.wrapping_add(bytes as u64);
    }

    /// Count one processed packet, and one active result when the flag is
    /// set.
    pub fn record_processed(&mut self, is_active: bool)
        ensures
            *final(self) == (Stats {
                processed: spec_wrap_add64(old(self).processed, 1),
                vad_active: if is_active {
                    spec_wrap_add64(old(self).vad_active, 1)
                } else {
                    old(self).vad_active
                },
                ..*old(self)
            }),
    {
        self.processed = self.processed.wrapping_add(1);
        if is_active {
            self.vad_active = self.vad_active.wrapping_add(1);
        }
    }

    /// Count one malformed frame.
    pub fn record_parse_error(&mut self)
        ensures
            *final(self) == (Stats {
                parse_errors: spec_wrap_add64(old(self).parse_errors, 1),
                ..*old(self)
            }),
    {
        self.parse_errors = self.parse_errors.wrapping_add(1);
    }

    /// Count one transient receive failure.
    pub fn record_recv_error(&mut self)
        ensures
            *final(self) == (Stats {
                recv_errors: spec_wrap_add64(old(self).recv_errors, 1),
                ..*old(self)
            }),
    {
        self.recv_errors = self.recv_errors.wrapping_add(1);
    }

    /// Count one item dropped on a full queue.
    pub fn record_channel_drop(&mut self)
        ensures
            *final(self) == (Stats {
                channel_drops: spec_wrap_add64(old(self).channel_drops, 1),
                ..*old(self)
            }),
    {
        self.channel_drops = self.channel_drops.wrapping_add(1);
    }

    /// Take the current counter values and reset every counter to zero.
    pub fn snapshot_and_reset(&mut self) -> (r: StatsSnapshot)
        ensures
            r == (StatsSnapshot {
                recv_packets: old(self).recv_packets,
                recv_bytes: old(self).recv_bytes,
                processed: old(self).processed,
                vad_active: old(self).vad_active,
                parse_errors: old(self).parse_errors,
                recv_errors: old(self).recv_errors,
                channel_drops: old(self).channel_drops,
            }),
            *final(self) == Stats::spec_zeroed(),
    {
        let r = StatsSnapshot {
            recv_packets: self.recv_packets,
            recv_bytes: self.recv_bytes,
            processed: self.processed,
            vad_active: self.vad_active,
            parse_errors: self.parse_errors,
            recv_errors: self.recv_errors,
            channel_drops: self.channel_drops,
        };
        self.recv_packets = 0;
        self.recv_bytes = 0;
        self.processed = 0;
        self.vad_active = 0;
        self.parse_errors = 0;
        self.recv_errors = 0;
        self.channel_drops = 0;
        r
    }

    /// The all-zero counter state.
    pub open spec fn spec_zeroed() -> Stats {
        Stats {
            recv_packets: 0,
            recv_bytes: 0,
            processed: 0,
            vad_active: 0,
            parse_errors: 0,
            recv_errors: 0,
            channel_drops: 0,
        }
    }
}

} // verus!
