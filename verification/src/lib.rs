//! Verified core of a UDP audio/sensor bridge for small embedded devices.
//!
//! The crate holds the wire codecs (device audio frames, notification
//! frames, sensor datagrams, affective replies, WAV images), the per-device
//! session state machine, the audio resampler, the persona tag, and the
//! decision logic of the session orchestrator and the upstream bridge.
//! Sockets, files, the HTTP surface and the floating-point affective
//! arithmetic live in the surrounding application.

pub mod bridge;
pub mod config;
pub mod orchestrator;
pub mod persona;
pub mod protocol;
pub mod resample;
pub mod sensor;
pub mod session;
pub mod stats;
pub mod vad;
pub mod vad_response;
pub mod wav;
pub mod wire;
