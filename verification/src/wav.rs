//! Canonical WAV image for a recorded session: RIFF/WAVE, integer PCM,
//! one channel, 16 000 Hz, 16 bits per sample.

use vstd::prelude::*;

use crate::wire::{spec_u16_bytes, spec_u32_bytes};

verus! {

/// Sample rate of recorded session audio.
pub const WAV_SAMPLE_RATE: u32 = 16_000;

/// Size of the canonical header that precedes the PCM data.
pub const WAV_HEADER_SIZE: usize = 44;

/// The 44-byte canonical WAV header for a mono 16-bit 16 kHz PCM body of
/// `data_len` bytes: the RIFF chunk, the `fmt ` sub-chunk, and the `data`
/// sub-chunk header.
pub open spec fn spec_wav_header(data_len: u32) -> Seq<u8>
    recommends
        data_len + 36 <= u32::MAX,
{
    seq![0x52u8, 0x49u8, 0x46u8, 0x46u8]  // "RIFF"
     + spec_u32_bytes((36 + data_len) as u32) + seq![0x57u8, 0x41u8, 0x56u8, 0x45u8]  // "WAVE"
     + seq![0x66u8, 0x6du8, 0x74u8, 0x20u8]  // "fmt "
     + spec_u32_bytes(16)  // sub-chunk size
     + spec_u16_bytes(1)  // integer PCM format
     + spec_u16_bytes(1)  // channels
     + spec_u32_bytes(WAV_SAMPLE_RATE)  // sample rate
     + spec_u32_bytes(32_000)  // byte rate
     + spec_u16_bytes(2)  // block align
     + spec_u16_bytes(16)  // bits per sample
     + seq![0x64u8, 0x61u8, 0x74u8, 0x61u8]  // "data"
     + spec_u32_bytes(data_len)
}

/// The full WAV image: the canonical header followed by the PCM bytes.
pub open spec fn spec_wav_bytes(pcm: Seq<u8>) -> Seq<u8> {
    spec_wav_header(pcm.len() as u32) + pcm
}

/// Build the WAV image of an accumulated PCM buffer.
pub fn wav_bytes(pcm: &[u8]) -> (r: Vec<u8>)
    requires
        pcm@.len() + 36 <= u32::MAX,
        pcm@.len() + WAV_HEADER_SIZE <= usize::MAX,
    ensures
        r@ == spec_wav_bytes(pcm@),
        r@.len() == WAV_HEADER_SIZE + pcm@.len(),
{
    let data_len = pcm.len() as u32;
    let mut out: Vec<u8> = Vec::with_capacity(WAV_HEADER_SIZE + pcm.len());
    // "RIFF"
    out.push(0x52);
    out.push(0x49);
    out.push(0x46);
    out.push(0x46);
    crate::wire::push_u32_le(&mut out, 36 + data_len);
    // "WAVE"
    out.push(0x57);
    out.push(0x41);
    out.push(0x56);
    out.push(0x45);
    // "fmt "
    out.push(0x66);
    out.push(0x6d);
    out.push(0x74);
    out.push(0x20);
    crate::wire::push_u32_le(&mut out, 16);
    crate::wire::push_u16_le(&mut out, 1);
    crate::wire::push_u16_le(&mut out, 1);
    crate::wire::push_u32_le(&mut out, WAV_SAMPLE_RATE);
    crate::wire::push_u32_le(&mut out, 32_000);
    crate::wire::push_u16_le(&mut out, 2);
    crate::wire::push_u16_le(&mut out, 16);
    // "data"
    out.push(0x64);
    out.push(0x61);
    out.push(0x74);
    out.push(0x61);
    crate::wire::push_u32_le(&mut out, data_len);
    out.extend_from_slice(pcm);
    proof {
        assert(out@ =~= spec_wav_bytes(pcm@));
    }
    out
}

} // verus!
