//! Voice-activity detection over raw audio payloads, in exact integer
//! arithmetic.
//!
//! The activity rule of the engine is `RMS > 30` where
//! `RMS = sqrt(sum(s_i^2) / n)` over the signed 16-bit samples. Squaring
//! both sides, that is exactly `sum(s_i^2) > 900 * n`, which this module
//! decides without rounding. The surrounding application derives the
//! floating-point RMS value for its logs from the sum of squares
//! reported here.

use vstd::prelude::*;

use crate::resample::spec_pcm_samples;
use crate::sensor::DATA_TYPE_SENSOR_VECTOR;

verus! {

/// The squared activity threshold: `30 * 30`.
pub const VAD_ENERGY_THRESHOLD_SQUARED: u64 = 900;

/// The kind of computation an affective result came from.
#[derive(Debug, Clone, Copy, PartialEq, Eq, Structural)]
pub enum VadKind {
    /// Energy-based audio voice-activity detection.
    Audio,
    /// Weighted-sensor emotional valence-arousal-dominance.
    Emotional,
}

/// Which pipeline a sensor datagram is routed to: the sensor-vector data
/// type goes to the emotional pipeline, everything else to the audio one.
pub fn vad_kind_for(data_type: u8) -> (r: VadKind)
    ensures
        r == (if data_type == DATA_TYPE_SENSOR_VECTOR {
            VadKind::Emotional
        } else {
            VadKind::Audio
        }),
{
    if data_type == DATA_TYPE_SENSOR_VECTOR {
        VadKind::Emotional
    } else {
        VadKind::Audio
    }
}

/// Sum of the squares of a sample sequence.
pub open spec fn spec_sum_squares(s: Seq<i16>) -> int
    decreases s.len(),
{
    if s.len() == 0 {
        0
    } else {
        spec_sum_squares(s.drop_last()) + s.last() * s.last()
    }
}

/// A sum of squares is never negative.
pub proof fn lemma_sum_squares_nonneg(s: Seq<i16>)
    ensures
        spec_sum_squares(s) >= 0,
    decreases s.len(),
{
    if s.len() > 0 {
        lemma_sum_squares_nonneg(s.drop_last());
        let x = s.last();
        assert(x * x >= 0) by (nonlinear_arith);
    }
}

/// The sum of squares vanishes exactly on the all-zero sequence: the
/// energy of a payload is zero when every sample is zero, and strictly
/// positive as soon as any sample is non-zero.
pub proof fn lemma_sum_squares_zero_iff(s: Seq<i16>)
    ensures
        spec_sum_squares(s) == 0 <==> (forall|i: int| 0 <= i < s.len() ==> s[i] == 0),
    decreases s.len(),
{
    if s.len() > 0 {
        let d = s.drop_last();
        let x = s.last();
        lemma_sum_squares_zero_iff(d);
        lemma_sum_squares_nonneg(d);
        assert(x * x >= 0 && (x * x == 0 <==> x == 0)) by (nonlinear_arith);
        if spec_sum_squares(s) == 0 {
            assert forall|i: int| 0 <= i < s.len() implies s[i] == 0 by {
                if i < s.len() - 1 {
                    assert(d[i] == 0);
                }
            }
        }
        if forall|i: int| 0 <= i < s.len() ==> s[i] == 0 {
            assert forall|i: int| 0 <= i < d.len() implies d[i] == 0 by {
                assert(s[i] == 0);
            }
            assert(x == 0);
        }
    }
}

/// The outcome of audio voice-activity detection on one payload.
#[derive(Debug, Clone, Copy, PartialEq, Eq, Structural)]
pub struct AudioActivity {
    /// Number of complete 16-bit samples in the payload.
    pub n_samples: usize,
    /// Sum of the squared samples.
    pub sum_squares: u64,
    /// Whether the payload's RMS energy exceeds the threshold of 30.
    pub is_active: bool,
}

/// Decide voice activity for a payload of signed 16-bit little-endian
/// samples: the flag is set exactly when the root-mean-square energy
/// exceeds 30, that is, when the sum of squares exceeds `900 * n`.
/// A payload of fewer than two bytes carries no sample and is inactive.
pub fn compute_audio_activity(data: &[u8]) -> (r: AudioActivity)
    requires
        data@.len() <= 0x1_0000_0000,
    ensures
        r.n_samples == data@.len() / 2,
        r.sum_squares == spec_sum_squares(spec_pcm_samples(data@)),
        r.is_active <==> r.sum_squares > VAD_ENERGY_THRESHOLD_SQUARED * r.n_samples,
{
    let n_samples = data.len() / 2;
    let ghost samples = spec_pcm_samples(data@);
    let mut sum: u64 = 0;
    let mut i: usize = 0;
    proof {
        assert(samples.take(0) =~= Seq::<i16>::empty());
    }
    while i < n_samples
        invariant
            i <= n_samples,
            n_samples == data@.len() / 2,
            data@.len() <= 0x1_0000_0000,
            samples == spec_pcm_samples(data@),
            sum == spec_sum_squares(samples.take(i as int)),
            sum <= i * 0x4000_0000,
        decreases n_samples - i,
    {
        let s = crate::wire::i16_le(data[2 * i], data[2 * i + 1]);
        proof {
            assert(0 <= (s as int) * (s as int) <= 0x4000_0000) by (nonlinear_arith)
                requires
                    -0x8000 <= s as int <= 0x7fff,
            ;
        }
        let sq: i64 = (s as i64) * (s as i64);
        proof {
            assert(samples.take(i + 1).drop_last() =~= samples.take(i as int));
            assert(samples.take(i + 1).last() == samples[i as int]);
            assert((i + 1) * 0x4000_0000 == i * 0x4000_0000 + 0x4000_0000) by (nonlinear_arith);
            assert(i * 0x4000_0000 <= 0x1_0000_0000int * 0x4000_0000int) by (nonlinear_arith)
                requires
                    0 <= i <= 0x1_0000_0000,
            ;
        }
        sum = sum + sq as u64;
        i = i + 1;
    }
    proof {
        assert(samples.take(n_samples as int) =~= samples);
        assert(900 * n_samples <= 900 * 0x8000_0000int) by (nonlinear_arith)
            requires
                0 <= n_samples <= 0x8000_0000,
        ;
    }
    let is_active = sum > VAD_ENERGY_THRESHOLD_SQUARED * (n_samples as u64);
    AudioActivity { n_samples, sum_squares: sum, is_active }
}

} // verus!
