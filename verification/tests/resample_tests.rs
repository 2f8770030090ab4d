use esp_audio_bridge::resample::{resample_16k_to_24k, resample_24k_to_16k};

#[test]
fn test_resample_round_trip() {
    let n = 16_000usize;
    let mut pcm = Vec::with_capacity(n * 2);
    for i in 0..n {
        let t = (i as f64) / (n as f64);
        let s = (t * 440.0 * 2.0 * std::f64::consts::PI).sin() * 16_000.0;
        pcm.extend_from_slice(&(s as i16).to_le_bytes());
    }

    let up = resample_16k_to_24k(&pcm);
    let back = resample_24k_to_16k(&up);

    let n_orig = pcm.len() / 2;
    let n_back = back.len() / 2;
    assert!(
        ((n_orig as i64) - (n_back as i64)).abs() <= 2,
        "sample count drift: {} vs {}",
        n_orig,
        n_back
    );

    // First 100 samples should be close
    for i in 0..(100).min(n_back) {
        let a = i16::from_le_bytes([pcm[i * 2], pcm[i * 2 + 1]]);
        let b = i16::from_le_bytes([back[i * 2], back[i * 2 + 1]]);
        assert!(
            ((a as i32) - (b as i32)).abs() < 500,
            "sample {} too different: {} vs {}",
            i,
            a,
            b
        );
    }
}

#[test]
fn test_resample_empty() {
    assert!(resample_16k_to_24k(&[]).is_empty());
    assert!(resample_24k_to_16k(&[]).is_empty());
}

#[test]
fn test_resample_ratio() {
    // 700 samples @ 16 kHz → 1050 @ 24 kHz
    let pcm = vec![0u8; 700 * 2];
    let up = resample_16k_to_24k(&pcm);
    assert_eq!(up.len() / 2, 1050, "16→24 ratio wrong");

    // 1050 @ 24 kHz → 700 @ 16 kHz
    let down = resample_24k_to_16k(&up);
    assert_eq!(down.len() / 2, 700, "24→16 ratio wrong");
}

#[test]
fn test_resample_endpoints_kept() {
    // Three samples up to four: the first and last outputs equal the
    // first and last inputs.
    let mut pcm = Vec::new();
    for s in [100i16, 200, 300] {
        pcm.extend_from_slice(&s.to_le_bytes());
    }
    let up = resample_16k_to_24k(&pcm);
    assert_eq!(up.len() / 2, 4);
    let first = i16::from_le_bytes([up[0], up[1]]);
    let last = i16::from_le_bytes([up[up.len() - 2], up[up.len() - 1]]);
    assert_eq!(first, 100);
    assert_eq!(last, 300);
}

#[test]
fn test_resample_single_sample() {
    // One input sample downsampled reaches the quotient-zero edge case
    // and collapses to the first sample.
    let pcm = 1234i16.to_le_bytes().to_vec();
    let down = resample_24k_to_16k(&pcm);
    assert_eq!(down.len(), 2);
    assert_eq!(i16::from_le_bytes([down[0], down[1]]), 1234);
}

#[test]
fn test_resample_interpolates_midpoints() {
    // Two samples at 16 kHz give three at 24 kHz; the middle one is the
    // rounded midpoint.
    let mut pcm = Vec::new();
    for s in [0i16, 100] {
        pcm.extend_from_slice(&s.to_le_bytes());
    }
    let up = resample_16k_to_24k(&pcm);
    assert_eq!(up.len() / 2, 3);
    let mid = i16::from_le_bytes([up[2], up[3]]);
    assert_eq!(mid, 50);
}
