use esp_audio_bridge::protocol::{
    build_audio_down, build_control, build_heartbeat, build_notify_packet, build_packet,
    compute_notify_checksum, EspPacket, NotifyPacket, CTRL_SERVER_READY, FLAG_END, FLAG_START,
    FLAG_URGENT, PKT_AUDIO_UP, PKT_CONTROL, PKT_HEARTBEAT,
};
use esp_audio_bridge::sensor::SensorPacket;
use esp_audio_bridge::vad_response::VadResponsePacket;
use esp_audio_bridge::wav::wav_bytes;

#[test]
fn test_esp_frame_round_trip() {
    let payload: Vec<u8> = (0..700u32).map(|i| (i % 251) as u8).collect();
    let buf = build_packet(0xbeef, PKT_AUDIO_UP, FLAG_START | FLAG_END, &payload);
    let pkt = EspPacket::parse(&buf).expect("legal frame must parse");
    assert_eq!(pkt.seq_num, 0xbeef);
    assert_eq!(pkt.pkt_type, PKT_AUDIO_UP);
    assert_eq!(pkt.flags, FLAG_START | FLAG_END);
    assert_eq!(pkt.payload, payload);
    assert!(pkt.is_start());
    assert!(pkt.is_end());
    assert!(!pkt.is_urgent());
}

#[test]
fn test_esp_parse_rejects_short_buffer() {
    assert!(EspPacket::parse(&[0x01, 0x00, 0x01]).is_none());
    assert!(EspPacket::parse(&[]).is_none());
}

#[test]
fn test_esp_parse_rejects_unknown_type() {
    assert!(EspPacket::parse(&[0x00, 0x00, 0x05, 0x00]).is_none());
    assert!(EspPacket::parse(&[0x00, 0x00, 0x00, 0x00]).is_none());
}

#[test]
fn test_esp_parse_rejects_oversized_payload() {
    let buf = build_packet(1, PKT_AUDIO_UP, 0, &vec![0u8; 1401]);
    assert!(EspPacket::parse(&buf).is_none());
    let ok = build_packet(1, PKT_AUDIO_UP, 0, &vec![0u8; 1400]);
    assert!(EspPacket::parse(&ok).is_some());
}

#[test]
fn test_esp_control_cmd() {
    let buf = build_control(7, CTRL_SERVER_READY, 0);
    assert_eq!(buf, vec![0x07, 0x00, PKT_CONTROL, 0x00, CTRL_SERVER_READY]);
    let pkt = EspPacket::parse(&buf).unwrap();
    assert_eq!(pkt.control_cmd(), Some(CTRL_SERVER_READY));
    let hb = EspPacket::parse(&build_heartbeat(7)).unwrap();
    assert_eq!(hb.control_cmd(), None);
}

#[test]
fn test_esp_urgent_flag() {
    let buf = build_audio_down(2, FLAG_URGENT, &[1, 2, 3]);
    let pkt = EspPacket::parse(&buf).unwrap();
    assert!(pkt.is_urgent());
    assert!(!pkt.is_start());
    assert_eq!(pkt.payload, vec![1, 2, 3]);
}

#[test]
fn test_notify_build_then_parse() {
    let mac = [0x10u8, 0x20, 0x30, 0x40, 0x50, 0x60];
    let buf = build_notify_packet(0x51, &mac);
    assert_eq!(buf.len(), 14);
    let pkt = NotifyPacket::parse(&buf).expect("built notify frame must parse");
    assert_eq!(pkt.cmd, 0x51);
    assert_eq!(pkt.mac, mac);
}

#[test]
fn test_notify_parse_rejects_bad_markers() {
    let mac = [1u8, 2, 3, 4, 5, 6];
    let good = build_notify_packet(0x50, &mac);

    let mut bad_start = good;
    bad_start[0] = 0xab;
    assert!(NotifyPacket::parse(&bad_start).is_none());

    let mut bad_end = good;
    bad_end[13] = 0x00;
    assert!(NotifyPacket::parse(&bad_end).is_none());

    assert!(NotifyPacket::parse(&good[..13]).is_none());
}

#[test]
fn test_notify_parse_rejects_bad_checksum() {
    let mac = [1u8, 2, 3, 4, 5, 6];
    let mut buf = build_notify_packet(0x50, &mac);
    buf[11] ^= 0xff;
    assert!(NotifyPacket::parse(&buf).is_none());
    // Corrupting a covered byte without fixing the checksum also fails.
    let mut buf2 = build_notify_packet(0x50, &mac);
    buf2[5] ^= 0x01;
    assert!(NotifyPacket::parse(&buf2).is_none());
}

#[test]
fn test_notify_checksum_skips_own_position() {
    let mac = [9u8, 8, 7, 6, 5, 4];
    let mut buf = build_notify_packet(0x53, &mac);
    let before = compute_notify_checksum(&buf);
    assert_eq!(before, 0x45, "XOR of all bytes but the checksum position");
    assert_eq!(buf[11], 0x45);
    buf[11] = 0x00;
    assert_eq!(compute_notify_checksum(&buf), before);
}

#[test]
fn test_notify_mac_str() {
    let pkt = NotifyPacket {
        cmd: 0x51,
        mac: [0xaa, 0xbb, 0x0c, 0x0d, 0xee, 0x0f],
    };
    assert_eq!(pkt.mac_str(), "aa:bb:0c:0d:ee:0f");
}

#[test]
fn test_sensor_parse_fields() {
    let mut buf = vec![0u8; 32];
    buf[0..4].copy_from_slice(&0xdead_beefu32.to_le_bytes());
    buf[4..12].copy_from_slice(&1_700_000_000_000_000u64.to_le_bytes());
    buf[12] = 2;
    buf[16..18].copy_from_slice(&5u16.to_le_bytes());
    buf[20..28].copy_from_slice(&42u64.to_le_bytes());
    buf.extend_from_slice(&[10, 20, 30, 40, 50]);
    // Trailing bytes beyond the declared length are ignored.
    buf.push(0xff);

    let pkt = SensorPacket::from_binary(&buf).expect("complete datagram must parse");
    assert_eq!(pkt.sensor_id, 0xdead_beef);
    assert_eq!(pkt.timestamp_us, 1_700_000_000_000_000);
    assert_eq!(pkt.data_type, 2);
    assert_eq!(pkt.seq, 42);
    assert_eq!(pkt.payload, vec![10, 20, 30, 40, 50]);
}

#[test]
fn test_sensor_parse_rejects_truncated() {
    // Shorter than the header.
    assert!(SensorPacket::from_binary(&[0u8; 31]).is_none());
    // Header promises more payload than the buffer holds.
    let mut buf = vec![0u8; 32];
    buf[16..18].copy_from_slice(&10u16.to_le_bytes());
    buf.extend_from_slice(&[0u8; 9]);
    assert!(SensorPacket::from_binary(&buf).is_none());
    // Exactly the declared length parses.
    buf.push(0);
    assert!(SensorPacket::parse(&buf).is_some());
}

#[test]
fn test_vad_response_layout() {
    let p = VadResponsePacket {
        sensor_id: 0x0102_0304,
        seq: 0x1112_1314_1516_1718,
        is_active: 1,
        kind: 2,
        energy_bits: 0f32.to_bits(),
        threshold_bits: 0f32.to_bits(),
        valence_bits: 0.75f32.to_bits(),
        arousal_bits: 0.5f32.to_bits(),
        dominance_bits: 0.25f32.to_bits(),
    };
    let b = p.to_bytes();
    assert_eq!(b.len(), 34);
    assert_eq!(u32::from_le_bytes([b[0], b[1], b[2], b[3]]), 0x0102_0304);
    assert_eq!(
        u64::from_le_bytes([b[4], b[5], b[6], b[7], b[8], b[9], b[10], b[11]]),
        0x1112_1314_1516_1718
    );
    assert_eq!(b[12], 1);
    assert_eq!(b[13], 2);
    // The floats round-trip exactly (bit for bit).
    assert_eq!(f32::from_le_bytes([b[14], b[15], b[16], b[17]]), 0.0);
    assert_eq!(f32::from_le_bytes([b[18], b[19], b[20], b[21]]), 0.0);
    assert_eq!(f32::from_le_bytes([b[22], b[23], b[24], b[25]]), 0.75);
    assert_eq!(f32::from_le_bytes([b[26], b[27], b[28], b[29]]), 0.5);
    assert_eq!(f32::from_le_bytes([b[30], b[31], b[32], b[33]]), 0.25);
}

#[test]
fn test_wav_image() {
    let pcm = [0x01u8, 0x02, 0x03, 0x04];
    let wav = wav_bytes(&pcm);
    assert_eq!(wav.len(), 48);
    assert_eq!(&wav[0..4], b"RIFF");
    assert_eq!(u32::from_le_bytes([wav[4], wav[5], wav[6], wav[7]]), 40);
    assert_eq!(&wav[8..12], b"WAVE");
    assert_eq!(&wav[12..16], b"fmt ");
    assert_eq!(u32::from_le_bytes([wav[16], wav[17], wav[18], wav[19]]), 16);
    assert_eq!(u16::from_le_bytes([wav[20], wav[21]]), 1); // PCM
    assert_eq!(u16::from_le_bytes([wav[22], wav[23]]), 1); // mono
    assert_eq!(
        u32::from_le_bytes([wav[24], wav[25], wav[26], wav[27]]),
        16_000
    );
    assert_eq!(
        u32::from_le_bytes([wav[28], wav[29], wav[30], wav[31]]),
        32_000
    );
    assert_eq!(u16::from_le_bytes([wav[32], wav[33]]), 2); // block align
    assert_eq!(u16::from_le_bytes([wav[34], wav[35]]), 16); // bits
    assert_eq!(&wav[36..40], b"data");
    assert_eq!(u32::from_le_bytes([wav[40], wav[41], wav[42], wav[43]]), 4);
    assert_eq!(&wav[44..48], &pcm);
}
