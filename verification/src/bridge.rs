//! Upstream bridge decisions: framing audio for the cloud speech service
//! and routing its reply audio back to the active device.
//!
//! Outbound, raw 16 kHz PCM chunks are resampled to 24 kHz,
//! base64-encoded, and wrapped in an append event. Inbound, a reply-audio
//! event's base64 payload is decoded, resampled to 16 kHz, and split into
//! audio-down frames of at most `ESP_MAX_PAYLOAD` payload bytes, with a
//! wrapping 16-bit sequence number assigned per fragment. The sockets and
//! the WebSocket itself live in the surrounding application; this module
//! computes the bytes and the decisions.

use vstd::prelude::*;

use crate::protocol::{
    build_audio_down, build_control, spec_build_packet, CTRL_STREAM_END, ESP_MAX_PAYLOAD,
    PKT_AUDIO_DOWN, PKT_CONTROL,
};
use crate::resample::{
    resample_16k_to_24k, resample_24k_to_16k, spec_pcm_bytes, spec_pcm_samples, spec_resampled,
};
use crate::session::spec_expected_seq;

verus! {

/// The standard base64 encoding of a byte sequence (with padding), as the
/// base64 crate's standard engine computes it.
pub uninterp spec fn b64_of(bytes: Seq<u8>) -> Seq<char>;

/// Relies on the base64 crate's standard engine: `encode` returns the
/// canonical padded encoding, four characters for every three bytes.
#[verifier::external_body]
fn b64_encode(b: &[u8]) -> (r: String)
    requires
        b@.len() <= 0x4000_0000,
    ensures
        r@ == b64_of(b@),
        r@.len() == 4 * ((b@.len() + 2) / 3),
{
    base64::Engine::encode(&base64::engine::general_purpose::STANDARD, b)
}

/// Relies on the base64 crate's standard engine: `decode` requires
/// canonical padding and rejects non-zero trailing bits, so it succeeds
/// exactly on canonical encodings — a successful decode returns the bytes
/// whose encoding the input is, and a failure means the input encodes no
/// byte sequence at all. Four input characters decode to three bytes, so
/// the output is never longer than the input.
#[verifier::external_body]
fn b64_decode(s: &str) -> (r: Option<Vec<u8>>)
    ensures
        r matches Some(v) ==> b64_of(v@) == s@ && v@.len() <= s@.len(),
        r is None ==> forall|v: Seq<u8>| #[trigger] b64_of(v) != s@,
{
    match base64::Engine::decode(&base64::engine::general_purpose::STANDARD, s) {
        Ok(v) => Some(v),
        Err(_) => None,
    }
}

/// `true` exactly when the two strings hold the same characters.
pub fn str_eq(a: &str, b: &str) -> (r: bool)
    ensures
        r == (a@ == b@),
{
    let sa: String = String::from_str(a);
    let sb: String = String::from_str(b);
    sa == sb
}

/// The event that discards the upstream's uncommitted input audio.
pub fn clear_input_event() -> (r: String)
    ensures
        r@ == "{\"type\":\"input_audio_buffer.clear\"}"@,
{
    String::from_str("{\"type\":\"input_audio_buffer.clear\"}")
}

/// The event that commits the upstream's buffered input audio.
pub fn commit_input_event() -> (r: String)
    ensures
        r@ == "{\"type\":\"input_audio_buffer.commit\"}"@,
{
    String::from_str("{\"type\":\"input_audio_buffer.commit\"}")
}

/// The event that explicitly asks the upstream for a response.
pub fn create_response_event() -> (r: String)
    ensures
        r@ == "{\"type\":\"response.create\"}"@,
{
    String::from_str("{\"type\":\"response.create\"}")
}

/// The append event that carries one base64-encoded audio chunk.
pub fn append_event_for(b64: &str) -> (r: String)
    ensures
        r@ == "{\"type\":\"input_audio_buffer.append\",\"audio\":\""@ + b64@ + "\"}"@,
{
    let mut s = String::from_str("{\"type\":\"input_audio_buffer.append\",\"audio\":\"");
    s.append(b64);
    s.append("\"}");
    s
}

/// Build the append event for one raw 16 kHz PCM chunk, as the writer
/// sends it upstream: the chunk resampled to 24 kHz, base64-encoded, and
/// wrapped in the event.
pub fn audio_append_event(pcm16: &[u8]) -> (r: String)
    requires
        pcm16@.len() <= 0x1000_0000,
    ensures
        r@ == "{\"type\":\"input_audio_buffer.append\",\"audio\":\""@ + b64_of(
            spec_pcm_bytes(spec_resampled(spec_pcm_samples(pcm16@), 16_000, 24_000)),
        ) + "\"}"@,
{
    let pcm24 = resample_16k_to_24k(pcm16);
    proof {
        crate::resample::lemma_pcm_bytes_samples(
            spec_resampled(spec_pcm_samples(pcm16@), 16_000, 24_000),
        );
    }
    let b64 = b64_encode(pcm24.as_slice());
    append_event_for(b64.as_str())
}

/// The 16-bit wrapping sum `s + k`.
pub open spec fn spec_wrap_add(s: u16, k: int) -> u16 {
    ((s + k) % 0x1_0000) as u16
}

/// Stepping a wrapping counter once from `s + k` lands on `s + k + 1`.
proof fn lemma_wrap_add_step(s: u16, k: int)
    requires
        k >= 0,
    ensures
        spec_expected_seq(spec_wrap_add(s, k)) == spec_wrap_add(s, k + 1),
{
    let m = 0x1_0000int;
    let x = s + k;
    let w = x % m;
    vstd::arithmetic::div_mod::lemma_fundamental_div_mod(x, m);
    if w == m - 1 {
        vstd::arithmetic::div_mod::lemma_fundamental_div_mod_converse(x + 1, m, x / m + 1, 0);
    } else {
        vstd::arithmetic::div_mod::lemma_fundamental_div_mod_converse(x + 1, m, x / m, w + 1);
    }
}

/// How many audio-down frames a PCM buffer splits into: one per started
/// block of `ESP_MAX_PAYLOAD` bytes.
pub open spec fn spec_chunk_count(len: int) -> int {
    (len + ESP_MAX_PAYLOAD - 1) / (ESP_MAX_PAYLOAD as int)
}

/// The bytes of chunk `k` of a PCM buffer.
pub open spec fn spec_chunk(pcm: Seq<u8>, k: int) -> Seq<u8>
    recommends
        0 <= k < spec_chunk_count(pcm.len() as int),
{
    pcm.subrange(
        k * (ESP_MAX_PAYLOAD as int),
        if (k + 1) * (ESP_MAX_PAYLOAD as int) <= pcm.len() {
            (k + 1) * (ESP_MAX_PAYLOAD as int)
        } else {
            pcm.len() as int
        },
    )
}

/// The first `n` chunks of a PCM buffer, concatenated in order.
pub open spec fn spec_chunks_concat(pcm: Seq<u8>, n: int) -> Seq<u8>
    decreases n,
{
    if n <= 0 {
        Seq::<u8>::empty()
    } else {
        spec_chunks_concat(pcm, n - 1) + spec_chunk(pcm, n - 1)
    }
}

proof fn lemma_chunks_concat_prefix(pcm: Seq<u8>, n: int)
    requires
        0 <= n <= spec_chunk_count(pcm.len() as int),
    ensures
        spec_chunks_concat(pcm, n) == pcm.take(
            if n * ESP_MAX_PAYLOAD <= pcm.len() {
                n * (ESP_MAX_PAYLOAD as int)
            } else {
                pcm.len() as int
            },
        ),
    decreases n,
{
    let e = ESP_MAX_PAYLOAD as int;
    let len = pcm.len() as int;
    let count = spec_chunk_count(len);
    if n == 0 {
        assert(spec_chunks_concat(pcm, 0) =~= pcm.take(0));
    } else {
        lemma_chunks_concat_prefix(pcm, n - 1);
        // Each counted chunk starts inside the buffer.
        vstd::arithmetic::div_mod::lemma_fundamental_div_mod(len + e - 1, e);
        assert(count * e <= len + e - 1);
        assert((n - 1) * e <= (count - 1) * e) by (nonlinear_arith)
            requires
                n <= count,
                e >= 1,
        ;
        assert(spec_chunks_concat(pcm, n) =~= pcm.take(
            if n * e <= len {
                n * e
            } else {
                len
            },
        ));
    }
}

/// Chunking loses nothing: the chunks of a buffer, in order, concatenate
/// back to the buffer, so the audio-down frames carry the whole reply.
pub proof fn lemma_chunks_cover(pcm: Seq<u8>)
    ensures
        spec_chunks_concat(pcm, spec_chunk_count(pcm.len() as int)) == pcm,
{
    let e = ESP_MAX_PAYLOAD as int;
    let len = pcm.len() as int;
    let count = spec_chunk_count(len);
    lemma_chunks_concat_prefix(pcm, count);
    vstd::arithmetic::div_mod::lemma_fundamental_div_mod(len + e - 1, e);
    assert(count * e >= len);
    assert(pcm.take(len) =~= pcm);
}

/// Split reply PCM into audio-down frames of at most `ESP_MAX_PAYLOAD`
/// payload bytes each, assigning consecutive wrapping sequence numbers
/// from `start_seq`, and return the frames with the next free sequence
/// number. The frames carry the buffer's bytes in order, without the
/// urgent, start or end flags.
pub fn audio_down_frames(pcm: &[u8], start_seq: u16) -> (r: (Vec<Vec<u8>>, u16))
    requires
        pcm@.len() + 2 * ESP_MAX_PAYLOAD <= usize::MAX,
    ensures
        r.0@.len() == spec_chunk_count(pcm@.len() as int),
        forall|k: int|
            0 <= k < r.0@.len() ==> r.0@[k]@ == spec_build_packet(
                spec_wrap_add(start_seq, k),
                PKT_AUDIO_DOWN,
                0,
                spec_chunk(pcm@, k),
            ),
        forall|k: int| 0 <= k < r.0@.len() ==> (#[trigger] r.0@[k]@).len() <= 4 + ESP_MAX_PAYLOAD,
        r.1 == spec_wrap_add(start_seq, spec_chunk_count(pcm@.len() as int)),
{
    let ghost n_chunks = spec_chunk_count(pcm@.len() as int);
    let mut frames: Vec<Vec<u8>> = Vec::new();
    let mut seq: u16 = start_seq;
    let mut off: usize = 0;
    let mut k: usize = 0;
    proof {
        vstd::arithmetic::div_mod::lemma_fundamental_div_mod_converse(
            0 + ESP_MAX_PAYLOAD - 1,
            ESP_MAX_PAYLOAD as int,
            0,
            ESP_MAX_PAYLOAD - 1,
        );
    }
    while off < pcm.len()
        invariant
            off == k * ESP_MAX_PAYLOAD,
            k == 0 || (k - 1) * ESP_MAX_PAYLOAD < pcm@.len(),
            pcm@.len() + 2 * ESP_MAX_PAYLOAD <= usize::MAX,
            frames@.len() == k,
            n_chunks == spec_chunk_count(pcm@.len() as int),
            forall|i: int|
                0 <= i < k ==> frames@[i]@ == spec_build_packet(
                    spec_wrap_add(start_seq, i),
                    PKT_AUDIO_DOWN,
                    0,
                    spec_chunk(pcm@, i),
                ),
            forall|i: int| 0 <= i < k ==> (#[trigger] frames@[i]@).len() <= 4 + ESP_MAX_PAYLOAD,
            seq == spec_wrap_add(start_seq, k as int),
        decreases pcm@.len() + ESP_MAX_PAYLOAD - off,
    {
        let end = if off + ESP_MAX_PAYLOAD <= pcm.len() {
            off + ESP_MAX_PAYLOAD
        } else {
            pcm.len()
        };
        let frame = build_audio_down(seq, 0, &pcm[off..end]);
        proof {
            assert(pcm@.subrange(off as int, end as int) =~= spec_chunk(pcm@, k as int));
            lemma_wrap_add_step(start_seq, k as int);
        }
        frames.push(frame);
        seq = seq.wrapping_add(1);
        off = off + ESP_MAX_PAYLOAD;
        k = k + 1;
        proof {
            assert(forall|i: int|
                0 <= i < k ==> frames@[i]@ == spec_build_packet(
                    spec_wrap_add(start_seq, i),
                    PKT_AUDIO_DOWN,
                    0,
                    spec_chunk(pcm@, i),
                ));
        }
    }
    proof {
        if k > 0 {
            vstd::arithmetic::div_mod::lemma_fundamental_div_mod_converse(
                pcm@.len() + ESP_MAX_PAYLOAD - 1,
                ESP_MAX_PAYLOAD as int,
                k as int,
                pcm@.len() + ESP_MAX_PAYLOAD - 1 - k * ESP_MAX_PAYLOAD,
            );
        }
    }
    (frames, seq)
}

/// What the reader must do with one reply-audio delta.
pub struct DeltaOutcome {
    /// Audio-down frames to send to the active device, in order.
    pub frames: Vec<Vec<u8>>,
    /// The bridge's outbound sequence counter after these frames.
    pub next_seq: u16,
    /// The decoded audio was discarded because no device is active.
    pub dropped_no_device: bool,
    /// The event's payload was not valid base64.
    pub decode_failed: bool,
}

/// Route decoded 24 kHz reply audio: with an active device, resample to
/// 16 kHz and split into audio-down frames under consecutive wrapping
/// sequence numbers; with none, drop the audio and record the drop.
pub fn route_response_audio(pcm24: &[u8], has_active: bool, start_seq: u16) -> (r: DeltaOutcome)
    requires
        pcm24@.len() <= 0x1000_0000,
    ensures
        !r.decode_failed,
        r.dropped_no_device == !has_active,
        !has_active ==> r.frames@.len() == 0 && r.next_seq == start_seq,
        has_active ==> ({
            let pcm16 = spec_pcm_bytes(spec_resampled(spec_pcm_samples(pcm24@), 24_000, 16_000));
            &&& r.frames@.len() == spec_chunk_count(pcm16.len() as int)
            &&& (forall|k: int|
                0 <= k < r.frames@.len() ==> r.frames@[k]@ == spec_build_packet(
                    spec_wrap_add(start_seq, k),
                    PKT_AUDIO_DOWN,
                    0,
                    spec_chunk(pcm16, k),
                ))
            &&& r.next_seq == spec_wrap_add(start_seq, spec_chunk_count(pcm16.len() as int))
        }),
        forall|k: int| 0 <= k < r.frames@.len() ==> (#[trigger] r.frames@[k]@).len() <= 4
            + ESP_MAX_PAYLOAD,
{
    if !has_active {
        return DeltaOutcome {
            frames: Vec::new(),
            next_seq: start_seq,
            dropped_no_device: true,
            decode_failed: false,
        };
    }
    let pcm16 = resample_24k_to_16k(pcm24);
    let (frames, next_seq) = audio_down_frames(pcm16.as_slice(), start_seq);
    DeltaOutcome { frames, next_seq, dropped_no_device: false, decode_failed: false }
}

/// Handle one reply-audio delta event: base64-decode the payload, then
/// route it. A payload that is not valid base64 is reported and nothing
/// is sent; decoded audio is dropped when no device is active; otherwise
/// the decoded audio comes back as audio-down frames, resampled to
/// 16 kHz and split under consecutive wrapping sequence numbers.
pub fn handle_audio_delta(b64: &str, has_active: bool, start_seq: u16) -> (r: DeltaOutcome)
    requires
        b64@.len() <= 0x1000_0000,
    ensures
        r.decode_failed <==> !(exists|v: Seq<u8>| #[trigger] b64_of(v) == b64@),
        r.decode_failed ==> r.frames@.len() == 0 && !r.dropped_no_device && r.next_seq
            == start_seq,
        !r.decode_failed ==> r.dropped_no_device == !has_active,
        !r.decode_failed && !has_active ==> r.frames@.len() == 0 && r.next_seq == start_seq,
        !r.decode_failed && has_active ==> (exists|pcm24: Seq<u8>|
            {
                let pcm16 = spec_pcm_bytes(spec_resampled(spec_pcm_samples(pcm24), 24_000, 16_000));
                &&& #[trigger] b64_of(pcm24) == b64@
                &&& r.frames@.len() == spec_chunk_count(pcm16.len() as int)
                &&& (forall|k: int|
                    0 <= k < r.frames@.len() ==> r.frames@[k]@ == spec_build_packet(
                        spec_wrap_add(start_seq, k),
                        PKT_AUDIO_DOWN,
                        0,
                        spec_chunk(pcm16, k),
                    ))
                &&& r.next_seq == spec_wrap_add(start_seq, spec_chunk_count(pcm16.len() as int))
            }),
        forall|k: int| 0 <= k < r.frames@.len() ==> (#[trigger] r.frames@[k]@).len() <= 4
            + ESP_MAX_PAYLOAD,
{
    match b64_decode(b64) {
        None => DeltaOutcome {
            frames: Vec::new(),
            next_seq: start_seq,
            dropped_no_device: false,
            decode_failed: true,
        },
        Some(pcm24) => {
            let r = route_response_audio(pcm24.as_slice(), has_active, start_seq);
            proof {
                if has_active {
                    assert(b64_of(pcm24@) == b64@);
                }
            }
            r
        },
    }
}

/// The frame that closes a reply stream, sent when the upstream reports
/// its reply audio complete: one stream-end control frame under the
/// current outbound sequence number, with the advanced counter.
pub fn audio_done_frame(out_seq: u16) -> (r: (Vec<u8>, u16))
    ensures
        r.0@ == spec_build_packet(out_seq, PKT_CONTROL, 0, seq![CTRL_STREAM_END]),
        r.1 == spec_expected_seq(out_seq),
{
    let frame = build_control(out_seq, CTRL_STREAM_END, 0);
    (frame, out_seq.wrapping_add(1))
}

/// The kind of upstream event, as the reader dispatches on it.
#[derive(Debug, Clone, Copy, PartialEq, Eq, Structural)]
pub enum UpstreamEventKind {
    /// A chunk of reply audio to forward to the active device.
    AudioDelta,
    /// The reply audio is complete: send a stream-end control frame.
    AudioDone,
    /// An upstream error: log it and continue.
    ErrorEvent,
    /// A known lifecycle, turn-detection, transcript or completion event:
    /// observe only.
    Observed,
    /// Anything else: log it and continue.
    Unknown,
}

/// Classify an upstream event by its type tag.
pub fn classify_event(event_type: &str) -> (r: UpstreamEventKind)
    ensures
        r == (if event_type@ == "response.audio.delta"@ {
            UpstreamEventKind::AudioDelta
        } else if event_type@ == "response.audio.done"@ {
            UpstreamEventKind::AudioDone
        } else if event_type@ == "error"@ {
            UpstreamEventKind::ErrorEvent
        } else if event_type@ == "session.created"@ || event_type@ == "session.updated"@
            || event_type@ == "input_audio_buffer.speech_started"@ || event_type@
            == "input_audio_buffer.speech_stopped"@ || event_type@
            == "input_audio_buffer.committed"@ || event_type@ == "response.audio_transcript.delta"@
            || event_type@ == "response.audio_transcript.done"@ || event_type@
            == "conversation.item.input_audio_transcription.completed"@ || event_type@
            == "response.done"@ {
            UpstreamEventKind::Observed
        } else {
            UpstreamEventKind::Unknown
        }),
{
    if str_eq(event_type, "response.audio.delta") {
        UpstreamEventKind::AudioDelta
    } else if str_eq(event_type, "response.audio.done") {
        UpstreamEventKind::AudioDone
    } else if str_eq(event_type, "error") {
        UpstreamEventKind::ErrorEvent
    } else if str_eq(event_type, "session.created") || str_eq(event_type, "session.updated")
        || str_eq(event_type, "input_audio_buffer.speech_started") || str_eq(
        event_type,
        "input_audio_buffer.speech_stopped",
    ) || str_eq(event_type, "input_audio_buffer.committed") || str_eq(
        event_type,
        "response.audio_transcript.delta",
    ) || str_eq(event_type, "response.audio_transcript.done") || str_eq(
        event_type,
        "conversation.item.input_audio_transcription.completed",
    ) || str_eq(event_type, "response.done") {
        UpstreamEventKind::Observed
    } else {
        UpstreamEventKind::Unknown
    }
}

} // verus!
