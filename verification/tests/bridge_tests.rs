use base64::Engine;
use esp_audio_bridge::bridge::{
    append_event_for, audio_append_event, audio_done_frame, audio_down_frames, classify_event,
    clear_input_event, commit_input_event, create_response_event, handle_audio_delta,
    route_response_audio, UpstreamEventKind,
};
use esp_audio_bridge::protocol::{EspPacket, CTRL_STREAM_END, PKT_AUDIO_DOWN};

#[test]
fn test_control_event_strings() {
    assert_eq!(
        clear_input_event(),
        "{\"type\":\"input_audio_buffer.clear\"}"
    );
    assert_eq!(
        commit_input_event(),
        "{\"type\":\"input_audio_buffer.commit\"}"
    );
    assert_eq!(create_response_event(), "{\"type\":\"response.create\"}");
}

#[test]
fn test_append_event_wraps_payload() {
    assert_eq!(
        append_event_for("QUJD"),
        "{\"type\":\"input_audio_buffer.append\",\"audio\":\"QUJD\"}"
    );
}

#[test]
fn test_audio_append_event_resamples_and_encodes() {
    // One 16 kHz sample collapses to one 24 kHz sample: two zero bytes,
    // encoded "AAA=".
    let event = audio_append_event(&[0u8, 0u8]);
    assert_eq!(
        event,
        "{\"type\":\"input_audio_buffer.append\",\"audio\":\"AAA=\"}"
    );
    // The encoder is really applied to the resampled bytes: four samples
    // become six, twelve bytes, sixteen base64 characters.
    let pcm: Vec<u8> = [100i16, 100, 100, 100]
        .iter()
        .flat_map(|s| s.to_le_bytes())
        .collect();
    let event2 = audio_append_event(&pcm);
    let b64 = event2
        .strip_prefix("{\"type\":\"input_audio_buffer.append\",\"audio\":\"")
        .unwrap()
        .strip_suffix("\"}")
        .unwrap();
    let decoded = base64::engine::general_purpose::STANDARD
        .decode(b64)
        .unwrap();
    assert_eq!(decoded.len(), 12);
    for pair in decoded.chunks(2) {
        assert_eq!(i16::from_le_bytes([pair[0], pair[1]]), 100);
    }
}

#[test]
fn test_audio_down_frames_chunking() {
    let pcm = vec![7u8; 3000];
    let (frames, next_seq) = audio_down_frames(&pcm, 10);
    assert_eq!(frames.len(), 3);
    assert_eq!(next_seq, 13);
    let mut rebuilt = Vec::new();
    for (i, frame) in frames.iter().enumerate() {
        assert!(frame.len() <= 1404);
        let pkt = EspPacket::parse(frame).unwrap();
        assert_eq!(pkt.pkt_type, PKT_AUDIO_DOWN);
        assert_eq!(pkt.seq_num, 10 + i as u16);
        assert_eq!(pkt.flags, 0);
        assert!(pkt.payload.len() <= 1400);
        rebuilt.extend_from_slice(&pkt.payload);
    }
    assert_eq!(rebuilt, pcm, "the frames carry the buffer in order");
}

#[test]
fn test_audio_down_frames_empty_and_wrap() {
    let (frames, next_seq) = audio_down_frames(&[], 5);
    assert!(frames.is_empty());
    assert_eq!(next_seq, 5);

    let (frames, next_seq) = audio_down_frames(&[1u8; 1401], 0xffff);
    assert_eq!(frames.len(), 2);
    assert_eq!(EspPacket::parse(&frames[0]).unwrap().seq_num, 0xffff);
    assert_eq!(EspPacket::parse(&frames[1]).unwrap().seq_num, 0);
    assert_eq!(next_seq, 1);
}

#[test]
fn test_bridge_routing_scenario() {
    // 3000 bytes of 24 kHz reply audio: resampled to 16 kHz that is
    // 1000 samples (2000 bytes), so two audio-down frames reach the
    // active device, and the audio-done event yields a stream-end frame.
    let pcm24 = vec![0u8; 3000];
    let b64 = base64::engine::general_purpose::STANDARD.encode(&pcm24);
    let r = handle_audio_delta(&b64, true, 0);
    assert!(!r.decode_failed);
    assert!(!r.dropped_no_device);
    assert_eq!(r.frames.len(), 2);
    assert_eq!(r.next_seq, 2);
    let first = EspPacket::parse(&r.frames[0]).unwrap();
    let second = EspPacket::parse(&r.frames[1]).unwrap();
    assert_eq!(first.payload.len(), 1400);
    assert_eq!(second.payload.len(), 600);
    assert_eq!(first.pkt_type, PKT_AUDIO_DOWN);

    assert_eq!(
        classify_event("response.audio.done"),
        UpstreamEventKind::AudioDone
    );
    let (stream_end, seq_after) = audio_done_frame(r.next_seq);
    assert_eq!(stream_end, vec![0x02, 0x00, 0x03, 0x00, CTRL_STREAM_END]);
    assert_eq!(seq_after, 3);
}

#[test]
fn test_audio_delta_dropped_without_device() {
    let b64 = base64::engine::general_purpose::STANDARD.encode([0u8; 600]);
    let r = handle_audio_delta(&b64, false, 7);
    assert!(!r.decode_failed);
    assert!(r.dropped_no_device);
    assert!(r.frames.is_empty());
    assert_eq!(r.next_seq, 7);
}

#[test]
fn test_audio_delta_rejects_bad_base64() {
    let r = handle_audio_delta("!!!not base64!!!", true, 3);
    assert!(r.decode_failed);
    assert!(r.frames.is_empty());
    assert_eq!(r.next_seq, 3);
}

#[test]
fn test_route_response_audio_resamples() {
    // 300 samples at 24 kHz become 200 at 16 kHz: one 400-byte frame.
    let pcm24: Vec<u8> = (0..300i16).flat_map(|s| s.to_le_bytes()).collect();
    let r = route_response_audio(&pcm24, true, 0);
    assert_eq!(r.frames.len(), 1);
    let pkt = EspPacket::parse(&r.frames[0]).unwrap();
    assert_eq!(pkt.payload.len(), 400);
}

#[test]
fn test_classify_events() {
    assert_eq!(
        classify_event("response.audio.delta"),
        UpstreamEventKind::AudioDelta
    );
    assert_eq!(classify_event("error"), UpstreamEventKind::ErrorEvent);
    for observed in [
        "session.created",
        "session.updated",
        "input_audio_buffer.speech_started",
        "input_audio_buffer.speech_stopped",
        "input_audio_buffer.committed",
        "response.audio_transcript.delta",
        "response.audio_transcript.done",
        "conversation.item.input_audio_transcription.completed",
        "response.done",
    ] {
        assert_eq!(classify_event(observed), UpstreamEventKind::Observed);
    }
    assert_eq!(
        classify_event("something.else"),
        UpstreamEventKind::Unknown
    );
}
