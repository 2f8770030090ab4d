//! Device audio protocol: the 4-byte-header UDP frame and the fixed
//! 14-byte notification frame.

use vstd::prelude::*;

use crate::wire::{spec_u16_bytes, spec_u16_le, u16_le};

verus! {

/// Minimum header size (sequence number + type + flags).
pub const ESP_HEADER_SIZE: usize = 4;

/// Maximum payload size — stays under a typical 1500-byte MTU.
pub const ESP_MAX_PAYLOAD: usize = 1400;

/// Device → server: microphone PCM audio chunk.
pub const PKT_AUDIO_UP: u8 = 0x01;

/// Server → device: raw playback data.
pub const PKT_AUDIO_DOWN: u8 = 0x02;

/// Bidirectional: control / command messages.
pub const PKT_CONTROL: u8 = 0x03;

/// Bidirectional: keep-alive / round-trip measurement.
pub const PKT_HEARTBEAT: u8 = 0x04;

/// Flag bit: start of stream.
pub const FLAG_START: u8 = 0x01;

/// Flag bit: end of stream.
pub const FLAG_END: u8 = 0x02;

/// Flag bit: urgent / priority.
pub const FLAG_URGENT: u8 = 0x04;

/// Device → server: wake word detected, begin session.
pub const CTRL_SESSION_START: u8 = 0x01;

/// Device → server: user stopped speaking.
pub const CTRL_SESSION_END: u8 = 0x02;

/// Server → device: about to send an audio response.
pub const CTRL_STREAM_START: u8 = 0x03;

/// Server → device: finished sending an audio response.
pub const CTRL_STREAM_END: u8 = 0x04;

/// Bidirectional: acknowledge a control message.
pub const CTRL_ACK: u8 = 0x05;

/// Bidirectional: abort the current session.
pub const CTRL_CANCEL: u8 = 0x06;

/// Server → device: server is ready for audio.
pub const CTRL_SERVER_READY: u8 = 0x07;

/// The four packet types a frame may carry.
pub open spec fn spec_known_type(t: u8) -> bool {
    t == PKT_AUDIO_UP || t == PKT_AUDIO_DOWN || t == PKT_CONTROL || t == PKT_HEARTBEAT
}

/// A buffer holds a well-formed device frame: long enough for the header,
/// a known type byte, and a payload within the size cap.
pub open spec fn spec_frame_ok(buf: Seq<u8>) -> bool {
    &&& buf.len() >= ESP_HEADER_SIZE
    &&& spec_known_type(buf[2])
    &&& buf.len() - ESP_HEADER_SIZE <= ESP_MAX_PAYLOAD
}

/// The bytes of a device frame: little-endian sequence number, type,
/// flags, then the payload.
pub open spec fn spec_build_packet(seq_num: u16, pkt_type: u8, flags: u8, payload: Seq<u8>) -> Seq<
    u8,
> {
    spec_u16_bytes(seq_num) + seq![pkt_type, flags] + payload
}

/// A parsed device audio-protocol packet.
#[derive(Debug, Clone)]
pub struct EspPacket {
    pub seq_num: u16,
    pub pkt_type: u8,
    pub flags: u8,
    pub payload: Vec<u8>,
}

impl EspPacket {
    /// A parsed packet carries a known type and a payload within the cap.
    pub open spec fn wf(self) -> bool {
        &&& spec_known_type(self.pkt_type)
        &&& self.payload@.len() <= ESP_MAX_PAYLOAD
    }

    /// Parse a device packet from raw UDP bytes.
    ///
    /// Succeeds exactly when the buffer is at least `ESP_HEADER_SIZE`
    /// long, the type byte is known, and the payload does not exceed
    /// `ESP_MAX_PAYLOAD`; the fields are then read off the header and the
    /// payload is the rest of the buffer.
    pub fn parse(buf: &[u8]) -> (r: Option<EspPacket>)
        ensures
            r is Some <==> spec_frame_ok(buf@),
            r matches Some(p) ==> {
                &&& p.seq_num == spec_u16_le(buf@[0], buf@[1])
                &&& p.pkt_type == buf@[2]
                &&& p.flags == buf@[3]
                &&& p.payload@ == buf@.skip(ESP_HEADER_SIZE as int)
                &&& p.wf()
            },
    {
        if buf.len() < ESP_HEADER_SIZE {
            return None;
        }
        let seq_num = u16_le(buf[0], buf[1]);
        let pkt_type = buf[2];
        let flags = buf[3];
        if !(pkt_type == PKT_AUDIO_UP || pkt_type == PKT_AUDIO_DOWN || pkt_type == PKT_CONTROL
            || pkt_type == PKT_HEARTBEAT) {
            return None;
        }
        if buf.len() - ESP_HEADER_SIZE > ESP_MAX_PAYLOAD {
            return None;
        }
        let payload = vstd::slice::slice_to_vec(&buf[ESP_HEADER_SIZE..buf.len()]);
        proof {
            assert(payload@ =~= buf@.skip(ESP_HEADER_SIZE as int));
        }
        Some(EspPacket { seq_num, pkt_type, flags, payload })
    }

    /// `true` when the START flag is set.
    pub fn is_start(&self) -> (r: bool)
        ensures
            r == ((self.flags & FLAG_START) != 0),
    {
        (self.flags & FLAG_START) != 0
    }

    /// `true` when the END flag is set.
    pub fn is_end(&self) -> (r: bool)
        ensures
            r == ((self.flags & FLAG_END) != 0),
    {
        (self.flags & FLAG_END) != 0
    }

    /// `true` when the URGENT flag is set.
    pub fn is_urgent(&self) -> (r: bool)
        ensures
            r == ((self.flags & FLAG_URGENT) != 0),
    {
        (self.flags & FLAG_URGENT) != 0
    }

    /// For control packets, the command byte (first byte of the payload).
    pub fn control_cmd(&self) -> (r: Option<u8>)
        ensures
            r == (if self.pkt_type == PKT_CONTROL && self.payload@.len() > 0 {
                Some(self.payload@[0])
            } else {
                None::<u8>
            }),
    {
        if self.pkt_type == PKT_CONTROL && self.payload.len() > 0 {
            Some(self.payload[0])
        } else {
            None
        }
    }
}

/// Build a raw packet for transmission.
pub fn build_packet(seq_num: u16, pkt_type: u8, flags: u8, payload: &[u8]) -> (r: Vec<u8>)
    requires
        payload@.len() + ESP_HEADER_SIZE <= usize::MAX,
    ensures
        r@ == spec_build_packet(seq_num, pkt_type, flags, payload@),
        r@.len() == ESP_HEADER_SIZE + payload@.len(),
{
    let mut buf: Vec<u8> = Vec::with_capacity(ESP_HEADER_SIZE + payload.len());
    crate::wire::push_u16_le(&mut buf, seq_num);
    buf.push(pkt_type);
    buf.push(flags);
    buf.extend_from_slice(payload);
    proof {
        assert(buf@ =~= spec_build_packet(seq_num, pkt_type, flags, payload@));
    }
    buf
}

/// Build a control packet (type `PKT_CONTROL`, payload `[cmd]`).
pub fn build_control(seq_num: u16, cmd: u8, flags: u8) -> (r: Vec<u8>)
    ensures
        r@ == spec_build_packet(seq_num, PKT_CONTROL, flags, seq![cmd]),
{
    let payload: [u8; 1] = [cmd];
    let r = build_packet(seq_num, PKT_CONTROL, flags, payload.as_slice());
    proof {
        assert(payload@ =~= seq![cmd]);
    }
    r
}

/// Build a heartbeat response mirroring the incoming sequence number.
pub fn build_heartbeat(seq_num: u16) -> (r: Vec<u8>)
    ensures
        r@ == spec_build_packet(seq_num, PKT_HEARTBEAT, 0, Seq::<u8>::empty()),
{
    let payload: [u8; 0] = [];
    let r = build_packet(seq_num, PKT_HEARTBEAT, 0, payload.as_slice());
    proof {
        assert(payload@ =~= Seq::<u8>::empty());
    }
    r
}

/// Build an audio-down packet (type `PKT_AUDIO_DOWN`).
pub fn build_audio_down(seq_num: u16, flags: u8, pcm: &[u8]) -> (r: Vec<u8>)
    requires
        pcm@.len() + ESP_HEADER_SIZE <= usize::MAX,
    ensures
        r@ == spec_build_packet(seq_num, PKT_AUDIO_DOWN, flags, pcm@),
{
    build_packet(seq_num, PKT_AUDIO_DOWN, flags, pcm)
}

/// Every legal device frame survives a build/parse round trip: building
/// with a known type and a payload within the cap yields a buffer that
/// parses, and the parsed fields are the ones built in.
pub proof fn lemma_frame_round_trip(seq_num: u16, pkt_type: u8, flags: u8, payload: Seq<u8>)
    requires
        spec_known_type(pkt_type),
        payload.len() <= ESP_MAX_PAYLOAD,
    ensures
        ({
            let buf = spec_build_packet(seq_num, pkt_type, flags, payload);
            &&& spec_frame_ok(buf)
            &&& spec_u16_le(buf[0], buf[1]) == seq_num
            &&& buf[2] == pkt_type
            &&& buf[3] == flags
            &&& buf.skip(ESP_HEADER_SIZE as int) == payload
        }),
{
    let buf = spec_build_packet(seq_num, pkt_type, flags, payload);
    assert(buf.skip(ESP_HEADER_SIZE as int) =~= payload);
    crate::wire::lemma_u16_le_roundtrip(seq_num);
}

/// Start marker byte 0 of a notification frame.
pub const NOTIFY_START_0: u8 = 0xaa;

/// Start marker byte 1 of a notification frame.
pub const NOTIFY_START_1: u8 = 0xb0;

/// End marker byte 0 of a notification frame.
pub const NOTIFY_END_0: u8 = 0xff;

/// End marker byte 1 of a notification frame.
pub const NOTIFY_END_1: u8 = 0xf5;

/// Device → server: session start (wake word detected).
pub const NOTIFY_CMD_START: u8 = 0x51;

/// Device → server: session stop (user stopped speaking).
pub const NOTIFY_CMD_STOP: u8 = 0x50;

/// Server → device: server is ready.
pub const NOTIFY_CMD_SERVER_READY: u8 = 0x52;

/// Server → device: acknowledge.
pub const NOTIFY_CMD_ACK: u8 = 0x53;

/// Fixed size of a notification frame.
pub const NOTIFY_PACKET_SIZE: usize = 14;

/// Position of the checksum byte within the notification frame.
pub const NOTIFY_CHECKSUM_POS: usize = 11;

/// XOR of the first `n` bytes of `s`, the checksum position excepted.
pub open spec fn spec_notify_xor(s: Seq<u8>, n: int) -> u8
    decreases n,
{
    if n <= 0 {
        0
    } else if n - 1 == NOTIFY_CHECKSUM_POS {
        spec_notify_xor(s, n - 1)
    } else {
        spec_notify_xor(s, n - 1) ^ s[n - 1]
    }
}

/// The notification checksum: XOR over the frame's first fourteen bytes
/// (or all of a shorter buffer), skipping the checksum byte itself.
pub open spec fn spec_notify_checksum(s: Seq<u8>) -> u8 {
    spec_notify_xor(
        s,
        if s.len() < NOTIFY_PACKET_SIZE {
            s.len() as int
        } else {
            NOTIFY_PACKET_SIZE as int
        },
    )
}

/// A buffer holds a valid notification frame: long enough, both marker
/// pairs in place, and the checksum byte equal to the computed checksum.
pub open spec fn spec_notify_ok(buf: Seq<u8>) -> bool {
    &&& buf.len() >= NOTIFY_PACKET_SIZE
    &&& buf[0] == NOTIFY_START_0
    &&& buf[1] == NOTIFY_START_1
    &&& buf[12] == NOTIFY_END_0
    &&& buf[13] == NOTIFY_END_1
    &&& buf[NOTIFY_CHECKSUM_POS as int] == spec_notify_checksum(buf)
}

/// A parsed notification frame.
#[derive(Debug, Clone)]
pub struct NotifyPacket {
    pub cmd: u8,
    pub mac: [u8; 6],
}

impl NotifyPacket {
    /// Try to parse a notification frame from raw bytes.
    ///
    /// Fails exactly when the buffer is too short, a start or end marker
    /// does not match, or the checksum is invalid.
    pub fn parse(buf: &[u8]) -> (r: Option<NotifyPacket>)
        ensures
            r is Some <==> spec_notify_ok(buf@),
            r matches Some(p) ==> {
                &&& p.cmd == buf@[4]
                &&& p.mac@ == buf@.subrange(5, 11)
            },
    {
        if buf.len() < NOTIFY_PACKET_SIZE {
            return None;
        }
        if buf[0] != NOTIFY_START_0 || buf[1] != NOTIFY_START_1 {
            return None;
        }
        if buf[12] != NOTIFY_END_0 || buf[13] != NOTIFY_END_1 {
            return None;
        }
        if buf[NOTIFY_CHECKSUM_POS] != compute_notify_checksum(buf) {
            return None;
        }
        let cmd = buf[4];
        let mac: [u8; 6] = [buf[5], buf[6], buf[7], buf[8], buf[9], buf[10]];
        proof {
            assert(mac@ =~= buf@.subrange(5, 11));
        }
        Some(NotifyPacket { cmd, mac })
    }
}

/// The lowercase hexadecimal character of a value below sixteen.
pub open spec fn spec_hex_digit(d: int) -> char
    recommends
        0 <= d < 16,
{
    if d == 0 {
        '0'
    } else if d == 1 {
        '1'
    } else if d == 2 {
        '2'
    } else if d == 3 {
        '3'
    } else if d == 4 {
        '4'
    } else if d == 5 {
        '5'
    } else if d == 6 {
        '6'
    } else if d == 7 {
        '7'
    } else if d == 8 {
        '8'
    } else if d == 9 {
        '9'
    } else if d == 10 {
        'a'
    } else if d == 11 {
        'b'
    } else if d == 12 {
        'c'
    } else if d == 13 {
        'd'
    } else if d == 14 {
        'e'
    } else {
        'f'
    }
}

/// A byte as two lowercase hexadecimal characters.
pub open spec fn spec_byte_hex(b: u8) -> Seq<char> {
    seq![spec_hex_digit(b as int / 16), spec_hex_digit(b as int % 16)]
}

/// A six-byte MAC address as colon-separated lowercase hexadecimal.
pub open spec fn spec_mac_str(mac: Seq<u8>) -> Seq<char>
    recommends
        mac.len() == 6,
{
    spec_byte_hex(mac[0]) + seq![':'] + spec_byte_hex(mac[1]) + seq![':'] + spec_byte_hex(mac[2])
        + seq![':'] + spec_byte_hex(mac[3]) + seq![':'] + spec_byte_hex(mac[4]) + seq![':']
        + spec_byte_hex(mac[5])
}

fn hex_digit_str(d: u8) -> (r: &'static str)
    requires
        d < 16,
    ensures
        r@ == seq![spec_hex_digit(d as int)],
{
    proof {
        reveal_strlit("0");
        reveal_strlit("1");
        reveal_strlit("2");
        reveal_strlit("3");
        reveal_strlit("4");
        reveal_strlit("5");
        reveal_strlit("6");
        reveal_strlit("7");
        reveal_strlit("8");
        reveal_strlit("9");
        reveal_strlit("a");
        reveal_strlit("b");
        reveal_strlit("c");
        reveal_strlit("d");
        reveal_strlit("e");
        reveal_strlit("f");
    }
    let r = match d {
        0 => "0",
        1 => "1",
        2 => "2",
        3 => "3",
        4 => "4",
        5 => "5",
        6 => "6",
        7 => "7",
        8 => "8",
        9 => "9",
        10 => "a",
        11 => "b",
        12 => "c",
        13 => "d",
        14 => "e",
        _ => "f",
    };
    proof {
        assert(r@ =~= seq![spec_hex_digit(d as int)]);
    }
    r
}

fn push_byte_hex(s: &mut String, b: u8)
    ensures
        final(s)@ == old(s)@ + spec_byte_hex(b),
{
    s.append(hex_digit_str(b / 16));
    s.append(hex_digit_str(b % 16));
    proof {
        assert(final(s)@ =~= old(s)@ + spec_byte_hex(b));
    }
}

impl NotifyPacket {
    /// The MAC address as a colon-separated lowercase hex string.
    pub fn mac_str(&self) -> (r: String)
        ensures
            r@ == spec_mac_str(self.mac@),
    {
        proof {
            reveal_strlit(":");
        }
        let mut s = String::new();
        push_byte_hex(&mut s, self.mac[0]);
        s.append(":");
        push_byte_hex(&mut s, self.mac[1]);
        s.append(":");
        push_byte_hex(&mut s, self.mac[2]);
        s.append(":");
        push_byte_hex(&mut s, self.mac[3]);
        s.append(":");
        push_byte_hex(&mut s, self.mac[4]);
        s.append(":");
        push_byte_hex(&mut s, self.mac[5]);
        proof {
            assert(s@ =~= spec_mac_str(self.mac@));
        }
        s
    }
}

/// Compute the XOR checksum of a notification frame: all bytes of the
/// frame except the checksum position itself.
pub fn compute_notify_checksum(buf: &[u8]) -> (r: u8)
    ensures
        r == spec_notify_checksum(buf@),
{
    let n = if buf.len() < NOTIFY_PACKET_SIZE {
        buf.len()
    } else {
        NOTIFY_PACKET_SIZE
    };
    let mut acc: u8 = 0;
    let mut i: usize = 0;
    while i < n
        invariant
            i <= n,
            n <= buf@.len(),
            n == if buf@.len() < NOTIFY_PACKET_SIZE {
                buf@.len() as int
            } else {
                NOTIFY_PACKET_SIZE as int
            },
            acc == spec_notify_xor(buf@, i as int),
        decreases n - i,
    {
        if i != NOTIFY_CHECKSUM_POS {
            acc = acc ^ buf[i];
        }
        i = i + 1;
    }
    acc
}

/// The checksum ignores the byte at the checksum position: two buffers
/// that agree everywhere else have the same checksum.
pub proof fn lemma_notify_checksum_ignores_own_byte(a: Seq<u8>, b: Seq<u8>)
    requires
        a.len() == b.len(),
        forall|i: int| 0 <= i < a.len() && i != NOTIFY_CHECKSUM_POS ==> a[i] == b[i],
    ensures
        spec_notify_checksum(a) == spec_notify_checksum(b),
{
    let n = if a.len() < NOTIFY_PACKET_SIZE {
        a.len() as int
    } else {
        NOTIFY_PACKET_SIZE as int
    };
    lemma_notify_xor_ignores_own_byte(a, b, n);
}

proof fn lemma_notify_xor_ignores_own_byte(a: Seq<u8>, b: Seq<u8>, n: int)
    requires
        n <= a.len(),
        a.len() == b.len(),
        forall|i: int| 0 <= i < a.len() && i != NOTIFY_CHECKSUM_POS ==> a[i] == b[i],
    ensures
        spec_notify_xor(a, n) == spec_notify_xor(b, n),
    decreases n,
{
    if n > 0 {
        lemma_notify_xor_ignores_own_byte(a, b, n - 1);
    }
}

/// Build a 14-byte notification frame for server → device replies.
///
/// The frame carries both markers, the fixed payload length, the command,
/// the MAC, and a checksum that makes the frame parse.
pub fn build_notify_packet(cmd: u8, mac: &[u8; 6]) -> (r: [u8; NOTIFY_PACKET_SIZE])
    ensures
        spec_notify_ok(r@),
        r@[4] == cmd,
        r@.subrange(5, 11) == mac@,
        r@[2] == 0,
        r@[3] == 7,
{
    let base: [u8; NOTIFY_PACKET_SIZE] = [
        NOTIFY_START_0,
        NOTIFY_START_1,
        0x00,
        0x07,
        cmd,
        mac[0],
        mac[1],
        mac[2],
        mac[3],
        mac[4],
        mac[5],
        0x00,
        NOTIFY_END_0,
        NOTIFY_END_1,
    ];
    let ck = compute_notify_checksum(base.as_slice());
    let out: [u8; NOTIFY_PACKET_SIZE] = [
        NOTIFY_START_0,
        NOTIFY_START_1,
        0x00,
        0x07,
        cmd,
        mac[0],
        mac[1],
        mac[2],
        mac[3],
        mac[4],
        mac[5],
        ck,
        NOTIFY_END_0,
        NOTIFY_END_1,
    ];
    proof {
        lemma_notify_checksum_ignores_own_byte(base@, out@);
        assert(out@.subrange(5, 11) =~= mac@);
    }
    out
}

} // verus!
