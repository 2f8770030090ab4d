//! Session orchestrator: the control-plane decisions taken for each
//! datagram that arrives on the audio endpoint. The functions here mutate
//! the session record and say what the caller must do — which reply to
//! send, whether to persist a WAV image, and which bridge operations to
//! issue — without touching a socket or a file themselves.

use vstd::prelude::*;

use crate::protocol::{
    build_control, spec_build_packet, EspPacket, CTRL_ACK, CTRL_CANCEL, CTRL_SERVER_READY,
    CTRL_SESSION_END, CTRL_SESSION_START, PKT_AUDIO_UP, PKT_CONTROL, PKT_HEARTBEAT,
};
use crate::session::{spec_expected_seq, spec_seq_gap, EspSession, SessionState};
use crate::wav::{spec_wav_bytes, wav_bytes};

verus! {

/// Where an inbound audio-endpoint packet is routed.
#[derive(Debug, Clone, Copy, PartialEq, Eq, Structural)]
pub enum PacketRoute {
    /// Mirror the sequence number back in a heartbeat frame.
    Heartbeat,
    /// Drive the session state machine with this control command.
    Control(u8),
    /// Record the payload into the session and fan it out.
    AudioUp,
    /// Nothing to do (audio-down frames and empty control frames).
    Ignore,
}

/// Route a parsed packet by its type, as the receive loop does: heartbeats
/// are answered, control commands drive the state machine, upstream audio
/// is recorded, and anything else is ignored.
pub fn route_packet(pkt: &EspPacket) -> (r: PacketRoute)
    ensures
        r == (if pkt.pkt_type == PKT_HEARTBEAT {
            PacketRoute::Heartbeat
        } else if pkt.pkt_type == PKT_CONTROL && pkt.payload@.len() > 0 {
            PacketRoute::Control(pkt.payload@[0])
        } else if pkt.pkt_type == PKT_AUDIO_UP {
            PacketRoute::AudioUp
        } else {
            PacketRoute::Ignore
        }),
{
    if pkt.pkt_type == PKT_HEARTBEAT {
        PacketRoute::Heartbeat
    } else if pkt.pkt_type == PKT_CONTROL {
        match pkt.control_cmd() {
            Some(cmd) => PacketRoute::Control(cmd),
            None => PacketRoute::Ignore,
        }
    } else if pkt.pkt_type == PKT_AUDIO_UP {
        PacketRoute::AudioUp
    } else {
        PacketRoute::Ignore
    }
}

/// What the caller must do after a control command was applied.
pub struct ControlOutcome {
    /// Frame to send back to the source address, if any.
    pub reply: Option<Vec<u8>>,
    /// WAV image to persist, if the command closed a non-empty session.
    pub wav: Option<Vec<u8>>,
    /// Make this device the bridge's active device.
    pub set_active: bool,
    /// Clear the bridge's active device.
    pub clear_active: bool,
    /// Ask the bridge to discard its uncommitted input audio.
    pub clear_input: bool,
    /// Ask the bridge to commit its buffered input audio.
    pub commit_input: bool,
    /// Install a clone of the bridge's audio sender into the session.
    pub install_sender: bool,
    /// Detach the bridge's audio sender from the session.
    pub detach_sender: bool,
}

impl ControlOutcome {
    /// No reply, no WAV, no bridge operation.
    pub open spec fn spec_is_noop(self) -> bool {
        &&& self.reply is None
        &&& self.wav is None
        &&& !self.set_active
        &&& !self.clear_active
        &&& !self.clear_input
        &&& !self.commit_input
        &&& !self.install_sender
        &&& !self.detach_sender
    }
}

/// Apply one control command to a device session.
///
/// * Session start resets the session, moves it to `Receiving`, replies
///   server-ready with the inbound sequence mirrored, and — when the
///   bridge is up — routes the bridge to this device, clears its input
///   buffer, and installs its audio sender.
/// * Session end, from `Receiving`, closes the session: it yields the WAV
///   image when audio had accumulated, detaches the sender, and resets to
///   `Idle`; from any other state it leaves the session alone. Either way
///   it acknowledges, and asks the bridge to commit its input buffer.
/// * Cancel resets the session from any state, detaches the sender, takes
///   the bridge off this device, discards the bridge's input buffer, and
///   acknowledges.
/// * Any other command does nothing.
pub fn handle_esp_control(
    session: &mut EspSession,
    cmd: u8,
    seq_num: u16,
    bridge_present: bool,
) -> (r: ControlOutcome)
    requires
        old(session).audio_buffer@.len() + 36 <= u32::MAX,
        old(session).audio_buffer@.len() + 44 <= usize::MAX,
    ensures
        cmd == CTRL_SESSION_START ==> {
            &&& final(session).state is Receiving
            &&& final(session).audio_packets == 0
            &&& final(session).audio_bytes == 0
            &&& final(session).audio_buffer@.len() == 0
            &&& final(session).packets_lost == 0
            &&& final(session).out_seq == 0
            &&& final(session).last_recv_seq == old(session).last_recv_seq
            &&& final(session).mac == old(session).mac
            &&& (r.reply matches Some(b) && b@ == spec_build_packet(
                seq_num,
                PKT_CONTROL,
                0,
                seq![CTRL_SERVER_READY],
            ))
            &&& r.wav is None
            &&& r.set_active == bridge_present
            &&& r.clear_input == bridge_present
            &&& r.install_sender == bridge_present
            &&& !r.clear_active
            &&& !r.commit_input
            &&& !r.detach_sender
        },
        cmd == CTRL_SESSION_END ==> {
            &&& (r.reply matches Some(b) && b@ == spec_build_packet(
                seq_num,
                PKT_CONTROL,
                0,
                seq![CTRL_ACK],
            ))
            &&& r.commit_input == bridge_present
            &&& (if old(session).state is Receiving && old(session).audio_buffer@.len() > 0 {
                r.wav matches Some(w) && w@ == spec_wav_bytes(old(session).audio_buffer@)
            } else {
                r.wav is None
            })
            &&& (if old(session).state is Receiving {
                &&& final(session).spec_cleared()
                &&& final(session).last_recv_seq == old(session).last_recv_seq
                &&& final(session).mac == old(session).mac
                &&& r.detach_sender
            } else {
                *final(session) == *old(session) && !r.detach_sender
            })
            &&& !r.set_active
            &&& !r.clear_active
            &&& !r.clear_input
            &&& !r.install_sender
        },
        cmd == CTRL_CANCEL ==> {
            &&& final(session).spec_cleared()
            &&& final(session).last_recv_seq == old(session).last_recv_seq
            &&& final(session).mac == old(session).mac
            &&& (r.reply matches Some(b) && b@ == spec_build_packet(
                seq_num,
                PKT_CONTROL,
                0,
                seq![CTRL_ACK],
            ))
            &&& r.wav is None
            &&& r.clear_active == bridge_present
            &&& r.clear_input == bridge_present
            &&& r.detach_sender
            &&& !r.set_active
            &&& !r.commit_input
            &&& !r.install_sender
        },
        !(cmd == CTRL_SESSION_START || cmd == CTRL_SESSION_END || cmd == CTRL_CANCEL) ==> {
            &&& *final(session) == *old(session)
            &&& r.spec_is_noop()
        },
{
    if cmd == CTRL_SESSION_START {
        session.reset();
        session.state = SessionState::Receiving;
        ControlOutcome {
            reply: Some(build_control(seq_num, CTRL_SERVER_READY, 0)),
            wav: None,
            set_active: bridge_present,
            clear_active: false,
            clear_input: bridge_present,
            commit_input: false,
            install_sender: bridge_present,
            detach_sender: false,
        }
    } else if cmd == CTRL_SESSION_END {
        let was_receiving = session.state == SessionState::Receiving;
        let wav = if was_receiving && session.audio_buffer.len() > 0 {
            Some(wav_bytes(session.audio_buffer.as_slice()))
        } else {
            None
        };
        if was_receiving {
            session.reset();
        }
        ControlOutcome {
            reply: Some(build_control(seq_num, CTRL_ACK, 0)),
            wav,
            set_active: false,
            clear_active: false,
            clear_input: false,
            commit_input: bridge_present,
            install_sender: false,
            detach_sender: was_receiving,
        }
    } else if cmd == CTRL_CANCEL {
        session.reset();
        ControlOutcome {
            reply: Some(build_control(seq_num, CTRL_ACK, 0)),
            wav: None,
            set_active: false,
            clear_active: bridge_present,
            clear_input: bridge_present,
            commit_input: false,
            install_sender: false,
            detach_sender: true,
        }
    } else {
        ControlOutcome {
            reply: None,
            wav: None,
            set_active: false,
            clear_active: false,
            clear_input: false,
            commit_input: false,
            install_sender: false,
            detach_sender: false,
        }
    }
}

/// What the caller must do after an upstream audio frame was applied.
#[derive(Debug, Clone, Copy, PartialEq, Eq, Structural)]
pub struct AudioUpOutcome {
    /// The payload was appended to the session buffer.
    pub appended: bool,
    /// Hand the payload to the affective pipeline.
    pub forward_affect: bool,
    /// Hand the payload to the bridge's audio queue.
    pub forward_bridge: bool,
}

/// Apply one upstream audio frame to a device session.
///
/// While the session is receiving, the payload is appended exactly once
/// and the loss counter grows by the wrapping sequence gap; in any other
/// state the frame is ignored. A non-empty recorded payload fans out to
/// the affective pipeline, and to the bridge when a sender is installed.
pub fn handle_audio_up(
    session: &mut EspSession,
    seq_num: u16,
    payload: &[u8],
    sender_present: bool,
) -> (r: AudioUpOutcome)
    requires
        old(session).audio_packets < u32::MAX,
        old(session).audio_bytes + payload@.len() <= u64::MAX,
        old(session).audio_buffer@.len() + payload@.len() <= usize::MAX,
        old(session).packets_lost + 0xffff <= u32::MAX,
    ensures
        r.appended == old(session).state is Receiving,
        r.appended ==> {
            &&& final(session).audio_buffer@ == old(session).audio_buffer@ + payload@
            &&& final(session).audio_packets == old(session).audio_packets + 1
            &&& final(session).audio_bytes == old(session).audio_bytes + payload@.len()
            &&& final(session).last_recv_seq == seq_num
            &&& final(session).packets_lost == old(session).packets_lost + (if old(
                session,
            ).audio_packets == 0 {
                0u16
            } else {
                spec_seq_gap(seq_num, spec_expected_seq(old(session).last_recv_seq))
            })
            &&& final(session).state == old(session).state
            &&& final(session).out_seq == old(session).out_seq
        },
        !r.appended ==> *final(session) == *old(session),
        r.forward_affect == (r.appended && payload@.len() > 0),
        r.forward_bridge == (r.appended && payload@.len() > 0 && sender_present),
{
    if session.state == SessionState::Receiving {
        session.record_audio(seq_num, payload);
        let forward = payload.len() > 0;
        AudioUpOutcome {
            appended: true,
            forward_affect: forward,
            forward_bridge: forward && sender_present,
        }
    } else {
        AudioUpOutcome { appended: false, forward_affect: false, forward_bridge: false }
    }
}

} // verus!
