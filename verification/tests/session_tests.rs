use esp_audio_bridge::orchestrator::{
    handle_audio_up, handle_esp_control, route_packet, PacketRoute,
};
use esp_audio_bridge::protocol::{
    build_heartbeat, EspPacket, CTRL_ACK, CTRL_CANCEL, CTRL_SERVER_READY, CTRL_SESSION_END,
    CTRL_SESSION_START, CTRL_STREAM_START,
};
use esp_audio_bridge::session::{EspSession, SessionState};

#[test]
fn test_new_session_is_idle() {
    let s = EspSession::new();
    assert_eq!(s.state, SessionState::Idle);
    assert_eq!(s.audio_packets, 0);
    assert_eq!(s.audio_bytes, 0);
    assert_eq!(s.packets_lost, 0);
    assert!(s.audio_buffer.is_empty());
    assert!(s.mac.is_none());
}

#[test]
fn test_next_seq_wraps() {
    let mut s = EspSession::new();
    assert_eq!(s.next_seq(), 0);
    assert_eq!(s.next_seq(), 1);
    s.out_seq = 0xffff;
    assert_eq!(s.next_seq(), 0xffff);
    assert_eq!(s.out_seq, 0);
}

#[test]
fn test_reset_zeros_all_counters() {
    let mut s = EspSession::new();
    s.state = SessionState::Receiving;
    s.next_seq();
    s.next_seq();
    s.record_audio(7, &[1, 2, 3, 4]);
    s.reset();
    assert_eq!(s.state, SessionState::Idle);
    assert_eq!(s.out_seq, 0, "the outbound sequence counter is zeroed too");
    assert_eq!(s.audio_packets, 0);
    assert_eq!(s.audio_bytes, 0);
    assert_eq!(s.packets_lost, 0);
    assert!(s.audio_buffer.is_empty());
    assert_eq!(s.last_recv_seq, 7, "the last-observed inbound sequence survives");
}

#[test]
fn test_record_audio_counts_and_gaps() {
    let mut s = EspSession::new();
    s.state = SessionState::Receiving;
    s.record_audio(10, &[1, 2]);
    assert_eq!(s.packets_lost, 0, "first packet sets no gap");
    s.record_audio(11, &[3, 4]);
    assert_eq!(s.packets_lost, 0, "in-order packet sets no gap");
    s.record_audio(13, &[5, 6]);
    assert_eq!(s.packets_lost, 1, "one frame missing between 11 and 13");
    assert_eq!(s.audio_packets, 3);
    assert_eq!(s.audio_bytes, 6);
    assert_eq!(s.audio_buffer, vec![1, 2, 3, 4, 5, 6]);
    assert_eq!(s.last_recv_seq, 13);
}

#[test]
fn test_record_audio_gap_across_wrap() {
    let mut s = EspSession::new();
    s.record_audio(0xffff, &[0]);
    s.record_audio(2, &[0]);
    // Expected 0x0000; frames 0x0000 and 0x0001 are missing.
    assert_eq!(s.packets_lost, 2);
}

#[test]
fn test_heartbeat_scenario() {
    // A heartbeat `[00 00 04 00]` is answered with the same bytes.
    let inbound = [0x00u8, 0x00, 0x04, 0x00];
    let pkt = EspPacket::parse(&inbound).unwrap();
    assert_eq!(route_packet(&pkt), PacketRoute::Heartbeat);
    let reply = build_heartbeat(pkt.seq_num);
    assert_eq!(reply, inbound.to_vec());
}

#[test]
fn test_session_start_scenario() {
    // `[01 00 03 00 01]` starts a session and is answered server-ready
    // `[01 00 03 00 07]`; the session is then receiving.
    let inbound = [0x01u8, 0x00, 0x03, 0x00, 0x01];
    let pkt = EspPacket::parse(&inbound).unwrap();
    assert_eq!(route_packet(&pkt), PacketRoute::Control(CTRL_SESSION_START));

    let mut session = EspSession::new();
    let outcome = handle_esp_control(&mut session, CTRL_SESSION_START, pkt.seq_num, false);
    assert_eq!(session.state, SessionState::Receiving);
    assert_eq!(
        outcome.reply.unwrap(),
        vec![0x01, 0x00, 0x03, 0x00, CTRL_SERVER_READY]
    );
    assert!(outcome.wav.is_none());
    assert!(!outcome.set_active, "no bridge, no routing");
}

#[test]
fn test_session_start_wires_bridge() {
    let mut session = EspSession::new();
    let outcome = handle_esp_control(&mut session, CTRL_SESSION_START, 5, true);
    assert!(outcome.set_active);
    assert!(outcome.clear_input);
    assert!(outcome.install_sender);
    assert!(!outcome.clear_active);
    assert!(!outcome.commit_input);
}

#[test]
fn test_full_turn_scenario() {
    // Start, three upstream audio frames (seq 10, 11, 13; 700 bytes
    // each), then end: one lost frame counted, one WAV image of
    // 2100 payload bytes, one acknowledgement, session reset to idle.
    let mut session = EspSession::new();
    let start = handle_esp_control(&mut session, CTRL_SESSION_START, 1, false);
    assert_eq!(
        start.reply.unwrap()[4],
        CTRL_SERVER_READY,
        "start is answered server-ready"
    );

    let payload = vec![0x55u8; 700];
    for seq in [10u16, 11, 13] {
        let r = handle_audio_up(&mut session, seq, &payload, false);
        assert!(r.appended, "receiving session appends every frame once");
        assert!(r.forward_affect);
        assert!(!r.forward_bridge, "no sender installed");
    }
    assert_eq!(session.packets_lost, 1);
    assert_eq!(session.audio_bytes, 2100);

    let end = handle_esp_control(&mut session, CTRL_SESSION_END, 14, false);
    let wav = end.wav.expect("non-empty buffer must yield exactly one WAV");
    assert_eq!(wav.len(), 44 + 2100);
    assert_eq!(end.reply.unwrap()[4], CTRL_ACK, "exactly one acknowledgement");
    assert!(end.detach_sender);
    assert_eq!(session.state, SessionState::Idle);
    assert_eq!(session.audio_packets, 0);
    assert!(session.audio_buffer.is_empty());
}

#[test]
fn test_session_end_without_receiving_still_acks() {
    let mut session = EspSession::new();
    let outcome = handle_esp_control(&mut session, CTRL_SESSION_END, 9, true);
    assert!(outcome.wav.is_none(), "idle session writes no WAV");
    assert_eq!(outcome.reply.unwrap()[4], CTRL_ACK);
    assert!(outcome.commit_input, "the bridge buffer is still committed");
    assert_eq!(session.state, SessionState::Idle);
}

#[test]
fn test_session_end_empty_buffer_writes_no_wav() {
    let mut session = EspSession::new();
    handle_esp_control(&mut session, CTRL_SESSION_START, 1, false);
    let outcome = handle_esp_control(&mut session, CTRL_SESSION_END, 2, false);
    assert!(outcome.wav.is_none());
    assert_eq!(outcome.reply.unwrap()[4], CTRL_ACK);
}

#[test]
fn test_cancel_from_any_state_clears() {
    for state in [
        SessionState::Idle,
        SessionState::Receiving,
        SessionState::Processing,
        SessionState::Responding,
    ] {
        let mut session = EspSession::new();
        session.state = state;
        session.next_seq();
        session.record_audio(1, &[1, 2, 3]);
        let outcome = handle_esp_control(&mut session, CTRL_CANCEL, 3, true);
        assert_eq!(session.state, SessionState::Idle);
        assert!(session.audio_buffer.is_empty());
        assert_eq!(session.audio_packets, 0);
        assert_eq!(session.out_seq, 0);
        assert_eq!(outcome.reply.unwrap()[4], CTRL_ACK);
        assert!(outcome.clear_active);
        assert!(outcome.clear_input);
        assert!(outcome.detach_sender);
    }
}

#[test]
fn test_unknown_control_is_ignored() {
    let mut session = EspSession::new();
    session.state = SessionState::Receiving;
    let outcome = handle_esp_control(&mut session, CTRL_STREAM_START, 4, true);
    assert!(outcome.reply.is_none());
    assert!(outcome.wav.is_none());
    assert_eq!(session.state, SessionState::Receiving);
}

#[test]
fn test_audio_up_ignored_when_not_receiving() {
    let mut session = EspSession::new();
    let r = handle_audio_up(&mut session, 1, &[1, 2], true);
    assert!(!r.appended);
    assert!(!r.forward_affect);
    assert!(!r.forward_bridge);
    assert_eq!(session.audio_packets, 0);
    assert!(session.audio_buffer.is_empty());
}

#[test]
fn test_audio_up_forwards_to_bridge_with_sender() {
    let mut session = EspSession::new();
    session.state = SessionState::Receiving;
    let r = handle_audio_up(&mut session, 1, &[1, 2], true);
    assert!(r.appended && r.forward_affect && r.forward_bridge);
    let empty = handle_audio_up(&mut session, 2, &[], true);
    assert!(empty.appended && !empty.forward_affect && !empty.forward_bridge);
}

#[test]
fn test_session_state_names() {
    assert_eq!(SessionState::Idle.name(), "idle");
    assert_eq!(SessionState::Receiving.name(), "receiving");
    assert_eq!(SessionState::Processing.name(), "processing");
    assert_eq!(SessionState::Responding.name(), "responding");
}
