//! Linear-interpolation resampler for 16-bit little-endian mono PCM, used
//! on the way to the 24 kHz upstream service and back to the 16 kHz
//! devices.
//!
//! For input length `n_in` and target length `n_out = n_in * to / from`
//! with `n_out > 1`, output index `j` maps to the exact rational position
//! `j * (n_in - 1) / (n_out - 1)` in the source, and the output sample is
//! the value interpolated between the two neighbouring source samples,
//! rounded to the nearest integer (ties away from zero).

use vstd::prelude::*;

use crate::wire::{i16_le, push_i16_le, spec_i16_bytes, spec_i16_le};

verus! {

/// The 16-bit little-endian samples of a PCM byte buffer (a trailing odd
/// byte carries no sample).
pub open spec fn spec_pcm_samples(b: Seq<u8>) -> Seq<i16> {
    Seq::new((b.len() / 2) as nat, |i: int| spec_i16_le(b[2 * i], b[2 * i + 1]))
}

/// The byte form of a sample sequence: each sample as its two
/// little-endian bytes, in order.
pub open spec fn spec_pcm_bytes(s: Seq<i16>) -> Seq<u8>
    decreases s.len(),
{
    if s.len() == 0 {
        Seq::<u8>::empty()
    } else {
        spec_pcm_bytes(s.drop_last()) + spec_i16_bytes(s.last())
    }
}

/// The byte form holds two bytes per sample, and parsing it back yields
/// the samples it was built from.
pub proof fn lemma_pcm_bytes_samples(s: Seq<i16>)
    ensures
        spec_pcm_bytes(s).len() == 2 * s.len(),
        spec_pcm_samples(spec_pcm_bytes(s)) == s,
    decreases s.len(),
{
    if s.len() > 0 {
        lemma_pcm_bytes_samples(s.drop_last());
        lemma_pcm_samples_snoc(spec_pcm_bytes(s.drop_last()), s.last());
        assert(spec_pcm_samples(spec_pcm_bytes(s)) =~= s);
    } else {
        assert(spec_pcm_samples(spec_pcm_bytes(s)) =~= s);
    }
}

/// Interpolate between `a` and `b` at fraction `r / d`, rounded to the
/// nearest integer with ties away from zero.
pub open spec fn spec_lerp(a: i16, b: i16, r: int, d: int) -> int
    recommends
        0 <= r < d,
{
    let num = a * (d - r) + b * r;
    if num >= 0 {
        (2 * num + d) / (2 * d)
    } else {
        -((2 * (-num) + d) / (2 * d))
    }
}

/// Output sample `j` of resampling `src` to `n_out` samples.
pub open spec fn spec_resample_at(src: Seq<i16>, n_out: int, j: int) -> int
    recommends
        src.len() >= 1,
        n_out >= 2,
        0 <= j < n_out,
{
    let d = n_out - 1;
    let t = j * (src.len() - 1);
    let idx = t / d;
    if idx + 1 < src.len() {
        spec_lerp(src[idx], src[idx + 1], t % d, d)
    } else {
        src[src.len() - 1] as int
    }
}

/// The number of output samples for `n_in` input samples.
pub open spec fn spec_out_len(n_in: int, from_rate: int, to_rate: int) -> int {
    n_in * to_rate / from_rate
}

/// The resampled sample sequence. Empty input gives empty output; an
/// output length of one or less collapses to the first source sample.
pub open spec fn spec_resampled(src: Seq<i16>, from_rate: int, to_rate: int) -> Seq<i16> {
    let n_out = spec_out_len(src.len() as int, from_rate, to_rate);
    if src.len() == 0 {
        Seq::<i16>::empty()
    } else if n_out <= 1 {
        seq![src[0]]
    } else {
        Seq::new(n_out as nat, |j: int| spec_resample_at(src, n_out, j) as i16)
    }
}

/// Rounding the exact multiple `q * d` back to the grid gives `q`:
/// `(2 q d + d) / (2 d) == q`.
proof fn lemma_round_mul(q: int, d: int)
    requires
        d >= 1,
    ensures
        (2 * (q * d) + d) / (2 * d) == q,
{
    assert(2 * (q * d) + d == q * (2 * d) + d) by (nonlinear_arith);
    vstd::arithmetic::div_mod::lemma_fundamental_div_mod_converse(
        2 * (q * d) + d,
        2 * d,
        q,
        d,
    );
}

/// Interpolation stays within the closed interval of its two endpoints,
/// so every interpolated sample fits a 16-bit value.
proof fn lemma_lerp_bounds(a: i16, b: i16, r: int, d: int)
    requires
        0 <= r < d,
    ensures
        i16::MIN <= spec_lerp(a, b, r, d) <= i16::MAX,
{
    let num = a * (d - r) + b * r;
    assert(i16::MIN * d <= num <= i16::MAX * d) by (nonlinear_arith)
        requires
            0 <= r < d,
            i16::MIN <= a <= i16::MAX,
            i16::MIN <= b <= i16::MAX,
            num == a * (d - r) + b * r,
    ;
    if num >= 0 {
        vstd::arithmetic::div_mod::lemma_div_pos_is_pos(2 * num + d, 2 * d);
        vstd::arithmetic::div_mod::lemma_div_is_ordered(
            2 * num + d,
            2 * (i16::MAX * d) + d,
            2 * d,
        );
        lemma_round_mul(i16::MAX as int, d);
    } else {
        vstd::arithmetic::div_mod::lemma_div_pos_is_pos(2 * (-num) + d, 2 * d);
        vstd::arithmetic::div_mod::lemma_div_is_ordered(
            2 * (-num) + d,
            2 * ((-(i16::MIN as int)) * d) + d,
            2 * d,
        );
        assert(-num <= (-(i16::MIN as int)) * d) by (nonlinear_arith)
            requires
                num >= i16::MIN * d,
        ;
        lemma_round_mul(-(i16::MIN as int), d);
    }
}

/// Appending one sample's two bytes extends the parsed sample sequence by
/// that sample.
proof fn lemma_pcm_samples_snoc(b: Seq<u8>, v: i16)
    requires
        b.len() % 2 == 0,
    ensures
        spec_pcm_samples(b + spec_i16_bytes(v)) == spec_pcm_samples(b).push(v),
{
    let c = b + spec_i16_bytes(v);
    crate::wire::lemma_i16_le_roundtrip(v);
    assert(spec_pcm_samples(c) =~= spec_pcm_samples(b).push(v));
}

/// The resampled length is exactly `n_in * to_rate / from_rate` whenever
/// that quotient exceeds one, and empty input yields empty output.
pub proof fn lemma_resample_length(src: Seq<i16>, from_rate: int, to_rate: int)
    requires
        from_rate >= 1,
        to_rate >= 1,
    ensures
        spec_out_len(src.len() as int, from_rate, to_rate) > 1 ==> spec_resampled(
            src,
            from_rate,
            to_rate,
        ).len() == spec_out_len(src.len() as int, from_rate, to_rate),
        src.len() == 0 ==> spec_resampled(src, from_rate, to_rate).len() == 0,
{
}

/// The first output sample is the first source sample, and the last
/// output sample is the last source sample, whenever more than one sample
/// goes in and more than one comes out.
pub proof fn lemma_resample_endpoints(src: Seq<i16>, from_rate: int, to_rate: int)
    requires
        src.len() > 1,
        from_rate >= 1,
        to_rate >= 1,
        spec_out_len(src.len() as int, from_rate, to_rate) > 1,
    ensures
        ({
            let out = spec_resampled(src, from_rate, to_rate);
            &&& out.len() == spec_out_len(src.len() as int, from_rate, to_rate)
            &&& out[0] == src[0]
            &&& out[out.len() - 1] == src[src.len() - 1]
        }),
{
    let n_in = src.len() as int;
    let n_out = spec_out_len(n_in, from_rate, to_rate);
    let d = n_out - 1;
    // First sample: position 0 lands exactly on source index 0.
    assert(0int * (n_in - 1) == 0) by (nonlinear_arith);
    assert(spec_resample_at(src, n_out, 0) == spec_lerp(src[0], src[1], 0, d));
    lemma_lerp_exact_pair(src[0], src[1], d);
    // Last sample: position d * (n_in - 1) / d is exactly n_in - 1.
    let t = d * (n_in - 1);
    assert(t / d == n_in - 1 && t % d == 0) by (nonlinear_arith)
        requires
            d >= 1,
            n_in >= 2,
            t == d * (n_in - 1),
    ;
    assert(spec_resample_at(src, n_out, d) == src[n_in - 1]);
}

/// Interpolating at fraction zero returns the left endpoint, whatever the
/// right endpoint holds.
proof fn lemma_lerp_exact_pair(a: i16, b: i16, d: int)
    requires
        d >= 1,
    ensures
        spec_lerp(a, b, 0, d) == a,
{
    let num = a * (d - 0) + b * 0;
    assert(num == a * d) by (nonlinear_arith)
        requires
            num == a * (d - 0) + b * 0,
    ;
    if num >= 0 {
        lemma_round_mul(a as int, d);
    } else {
        assert(-num == (-(a as int)) * d) by (nonlinear_arith)
            requires
                num == a * d,
        ;
        lemma_round_mul(-(a as int), d);
    }
}

/// Generic linear-interpolation resampler for 16-bit little-endian PCM.
///
/// The output holds exactly the samples of `spec_resampled` of the input's
/// samples: `n_in * to_rate / from_rate` of them (one, for inputs so short
/// that the quotient reaches zero or one; none, for empty input).
pub fn resample(pcm: &[u8], from_rate: u64, to_rate: u64) -> (out: Vec<u8>)
    requires
        from_rate >= 1,
        to_rate >= 1,
        to_rate <= 0x10_0000,
        pcm@.len() <= 0x1000_0000,
        ((pcm@.len() / 2) as int) * (to_rate as int) / (from_rate as int) <= 0x4000_0000,
    ensures
        out@ == spec_pcm_bytes(spec_resampled(spec_pcm_samples(pcm@), from_rate as int,
            to_rate as int)),
        spec_pcm_samples(out@) == spec_resampled(spec_pcm_samples(pcm@), from_rate as int,
            to_rate as int),
        out@.len() == 2 * spec_resampled(spec_pcm_samples(pcm@), from_rate as int,
            to_rate as int).len(),
{
    let ghost expected = spec_resampled(spec_pcm_samples(pcm@), from_rate as int, to_rate as int);
    let n_in = pcm.len() / 2;
    if n_in == 0 {
        let out: Vec<u8> = Vec::new();
        proof {
            assert(expected =~= Seq::<i16>::empty());
            assert(out@ =~= spec_pcm_bytes(expected));
            assert(spec_pcm_samples(out@) =~= expected);
        }
        return out;
    }
    // Parse the input samples.
    let mut src: Vec<i16> = Vec::with_capacity(n_in);
    let mut i: usize = 0;
    while i < n_in
        invariant
            i <= n_in,
            n_in == pcm@.len() / 2,
            pcm@.len() <= 0x1000_0000,
            src@ == spec_pcm_samples(pcm@).take(i as int),
        decreases n_in - i,
    {
        src.push(i16_le(pcm[2 * i], pcm[2 * i + 1]));
        proof {
            assert(src@ =~= spec_pcm_samples(pcm@).take(i + 1));
        }
        i = i + 1;
    }
    proof {
        assert(src@ =~= spec_pcm_samples(pcm@));
    }
    proof {
        assert((n_in as int) * (to_rate as int) <= 0x800_0000int * 0x10_0000int)
            by (nonlinear_arith)
            requires
                0 <= n_in as int <= 0x800_0000,
                1 <= to_rate as int <= 0x10_0000,
        ;
    }
    let n_out_wide: u64 = (n_in as u64) * to_rate / from_rate;
    let n_out: usize = n_out_wide as usize;
    let mut out: Vec<u8> = Vec::with_capacity(2 * n_out);
    if n_out <= 1 {
        push_i16_le(&mut out, src[0]);
        proof {
            lemma_pcm_samples_snoc(Seq::<u8>::empty(), src@[0]);
            assert(Seq::<u8>::empty() + spec_i16_bytes(src@[0]) =~= out@);
            assert(spec_pcm_samples(out@) =~= expected);
            assert(expected.drop_last() =~= Seq::<i16>::empty());
            assert(expected.last() == src@[0]);
            assert(spec_pcm_bytes(Seq::<i16>::empty()) =~= Seq::<u8>::empty());
            assert(spec_pcm_bytes(expected) =~= out@);
        }
        return out;
    }
    let d: u64 = (n_out - 1) as u64;
    let mut j: usize = 0;
    while j < n_out
        invariant
            j <= n_out,
            2 <= n_out <= 0x4000_0000,
            d == n_out - 1,
            1 <= n_in <= 0x800_0000,
            src@.len() == n_in,
            src@ == spec_pcm_samples(pcm@),
            expected == spec_resampled(spec_pcm_samples(pcm@), from_rate as int, to_rate as int),
            expected.len() == n_out,
            forall|k: int|
                0 <= k < n_out ==> expected[k] == spec_resample_at(src@, n_out as int, k) as i16,
            out@.len() == 2 * j,
            out@.len() % 2 == 0,
            out@ == spec_pcm_bytes(expected.take(j as int)),
            spec_pcm_samples(out@) == expected.take(j as int),
        decreases n_out - j,
    {
        proof {
            assert((j as int) * ((n_in - 1) as int) <= 0x4000_0000int * 0x800_0000int)
                by (nonlinear_arith)
                requires
                    0 <= j as int <= 0x4000_0000,
                    0 <= (n_in - 1) as int <= 0x800_0000,
            ;
        }
        let t: u64 = (j as u64) * ((n_in - 1) as u64);
        proof {
            assert(t <= d * (n_in - 1)) by (nonlinear_arith)
                requires
                    t == j * (n_in - 1),
                    0 <= j <= d,
                    n_in >= 1,
            ;
            assert(t / d <= n_in - 1) by (nonlinear_arith)
                requires
                    d >= 1,
                    t <= d * (n_in - 1),
                    n_in >= 1,
            ;
        }
        let idx: usize = (t / d) as usize;
        let r: u64 = t % d;
        let s: i16 = if idx + 1 < n_in {
            let a = src[idx] as i64;
            let b = src[idx + 1] as i64;
            proof {
                assert(0 <= r < d);
                assert(-(0x8000int * 0x4000_0000int) <= a * ((d - r) as int) <= 0x8000int
                    * 0x4000_0000int) by (nonlinear_arith)
                    requires
                        0 <= (d - r) as int <= 0x4000_0000,
                        -0x8000 <= a <= 0x7fff,
                ;
                assert(-(0x8000int * 0x4000_0000int) <= b * (r as int) <= 0x8000int
                    * 0x4000_0000int) by (nonlinear_arith)
                    requires
                        0 <= r as int <= 0x4000_0000,
                        -0x8000 <= b <= 0x7fff,
                ;
                assert(i16::MIN * (d as int) <= a * ((d - r) as int) + b * (r as int) <= i16::MAX
                    * (d as int)) by (nonlinear_arith)
                    requires
                        0 <= r < d,
                        i16::MIN <= a <= i16::MAX,
                        i16::MIN <= b <= i16::MAX,
                ;
                assert(i16::MIN * (d as int) >= i16::MIN * 0x4000_0000int) by (nonlinear_arith)
                    requires
                        1 <= d as int <= 0x4000_0000,
                ;
                assert(i16::MAX * (d as int) <= i16::MAX * 0x4000_0000int) by (nonlinear_arith)
                    requires
                        1 <= d as int <= 0x4000_0000,
                ;
            }
            let num: i64 = a * ((d - r) as i64) + b * (r as i64);
            let v: i64 = if num >= 0 {
                (2 * num + d as i64) / (2 * (d as i64))
            } else {
                -((2 * (-num) + d as i64) / (2 * (d as i64)))
            };
            proof {
                lemma_lerp_bounds(src@[idx as int], src@[idx as int + 1], r as int, d as int);
                assert(v == spec_lerp(src@[idx as int], src@[idx as int + 1], r as int, d as int));
            }
            v as i16
        } else {
            src[n_in - 1]
        };
        proof {
            if idx + 1 < n_in {
            } else {
                assert(idx == n_in - 1);
            }
            assert(s as int == spec_resample_at(src@, n_out as int, j as int));
        }
        push_i16_le(&mut out, s);
        proof {
            lemma_pcm_samples_snoc(out@.subrange(0, out@.len() - 2), s);
            assert(out@.subrange(0, out@.len() - 2) + spec_i16_bytes(s) =~= out@);
            assert(expected.take(j as int).push(expected[j as int]) =~= expected.take(j + 1));
            assert(expected.take(j + 1).drop_last() =~= expected.take(j as int));
            assert(expected.take(j + 1).last() == expected[j as int]);
            assert(expected[j as int] == s);
        }
        j = j + 1;
    }
    proof {
        assert(expected.take(n_out as int) =~= expected);
        assert(out@ == spec_pcm_bytes(expected));
    }
    out
}

/// Resample 16 kHz → 24 kHz PCM16 by linear interpolation.
pub fn resample_16k_to_24k(pcm: &[u8]) -> (out: Vec<u8>)
    requires
        pcm@.len() <= 0x1000_0000,
    ensures
        out@ == spec_pcm_bytes(spec_resampled(spec_pcm_samples(pcm@), 16_000, 24_000)),
        spec_pcm_samples(out@) == spec_resampled(spec_pcm_samples(pcm@), 16_000, 24_000),
        out@.len() == 2 * spec_resampled(spec_pcm_samples(pcm@), 16_000, 24_000).len(),
{
    resample(pcm, 16_000, 24_000)
}

/// Resample 24 kHz → 16 kHz PCM16 by linear interpolation.
pub fn resample_24k_to_16k(pcm: &[u8]) -> (out: Vec<u8>)
    requires
        pcm@.len() <= 0x1000_0000,
    ensures
        out@ == spec_pcm_bytes(spec_resampled(spec_pcm_samples(pcm@), 24_000, 16_000)),
        spec_pcm_samples(out@) == spec_resampled(spec_pcm_samples(pcm@), 24_000, 16_000),
        out@.len() == 2 * spec_resampled(spec_pcm_samples(pcm@), 24_000, 16_000).len(),
{
    resample(pcm, 24_000, 16_000)
}

} // verus!
