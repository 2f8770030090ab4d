//! Little-endian integer fields, as they appear in the wire formats.

use vstd::prelude::*;

verus! {

/// The unsigned 16-bit value stored little-endian as `b0 b1`.
pub open spec fn spec_u16_le(b0: u8, b1: u8) -> u16 {
    (b0 + b1 * 0x100) as u16
}

/// The unsigned 32-bit value stored little-endian as `b0 b1 b2 b3`.
pub open spec fn spec_u32_le(b0: u8, b1: u8, b2: u8, b3: u8) -> u32 {
    (b0 + b1 * 0x100 + b2 * 0x1_0000 + b3 * 0x100_0000) as u32
}

/// The unsigned 64-bit value stored little-endian over eight bytes.
pub open spec fn spec_u64_le(s: Seq<u8>) -> u64
    recommends
        s.len() == 8,
{
    (s[0] + s[1] * 0x100 + s[2] * 0x1_0000 + s[3] * 0x100_0000 + s[4] * 0x1_0000_0000
        + s[5] * 0x100_0000_0000 + s[6] * 0x1_0000_0000_0000 + s[7] * 0x100_0000_0000_0000) as u64
}

/// The signed 16-bit sample stored little-endian as `b0 b1`.
pub open spec fn spec_i16_le(b0: u8, b1: u8) -> i16 {
    if b0 + b1 * 0x100 < 0x8000 {
        (b0 + b1 * 0x100) as i16
    } else {
        (b0 + b1 * 0x100 - 0x1_0000) as i16
    }
}

/// The two little-endian bytes of an unsigned 16-bit value.
pub open spec fn spec_u16_bytes(v: u16) -> Seq<u8> {
    seq![(v % 0x100) as u8, (v / 0x100) as u8]
}

/// The four little-endian bytes of an unsigned 32-bit value.
pub open spec fn spec_u32_bytes(v: u32) -> Seq<u8> {
    seq![
        (v % 0x100) as u8,
        ((v / 0x100) % 0x100) as u8,
        ((v / 0x1_0000) % 0x100) as u8,
        ((v / 0x100_0000) % 0x100) as u8,
    ]
}

/// The eight little-endian bytes of an unsigned 64-bit value.
pub open spec fn spec_u64_bytes(v: u64) -> Seq<u8> {
    seq![
        (v % 0x100) as u8,
        ((v / 0x100) % 0x100) as u8,
        ((v / 0x1_0000) % 0x100) as u8,
        ((v / 0x100_0000) % 0x100) as u8,
        ((v / 0x1_0000_0000) % 0x100) as u8,
        ((v / 0x100_0000_0000) % 0x100) as u8,
        ((v / 0x1_0000_0000_0000) % 0x100) as u8,
        ((v / 0x100_0000_0000_0000) % 0x100) as u8,
    ]
}

/// The two little-endian bytes of a signed 16-bit sample.
pub open spec fn spec_i16_bytes(v: i16) -> Seq<u8> {
    spec_u16_bytes(if v >= 0 {
        v as u16
    } else {
        (v + 0x1_0000) as u16
    })
}

/// Reading two little-endian bytes gives back the encoded value.
pub proof fn lemma_u16_le_roundtrip(v: u16)
    ensures
        spec_u16_le(spec_u16_bytes(v)[0], spec_u16_bytes(v)[1]) == v,
{
}

/// Reading four little-endian bytes gives back the encoded value.
pub proof fn lemma_u32_le_roundtrip(v: u32)
    ensures
        ({
            let b = spec_u32_bytes(v);
            spec_u32_le(b[0], b[1], b[2], b[3]) == v
        }),
{
}

/// Reading eight little-endian bytes gives back the encoded value.
pub proof fn lemma_u64_le_roundtrip(v: u64)
    ensures
        spec_u64_le(spec_u64_bytes(v)) == v,
{
    let x = v as int;
    let q1 = x / 0x100;
    let q2 = x / 0x1_0000;
    let q3 = x / 0x100_0000;
    let q4 = x / 0x1_0000_0000;
    let q5 = x / 0x100_0000_0000;
    let q6 = x / 0x1_0000_0000_0000;
    let q7 = x / 0x100_0000_0000_0000;
    vstd::arithmetic::div_mod::lemma_div_denominator(x, 0x100, 0x100);
    vstd::arithmetic::div_mod::lemma_div_denominator(x, 0x1_0000, 0x100);
    vstd::arithmetic::div_mod::lemma_div_denominator(x, 0x100_0000, 0x100);
    vstd::arithmetic::div_mod::lemma_div_denominator(x, 0x1_0000_0000, 0x100);
    vstd::arithmetic::div_mod::lemma_div_denominator(x, 0x100_0000_0000, 0x100);
    vstd::arithmetic::div_mod::lemma_div_denominator(x, 0x1_0000_0000_0000, 0x100);
    vstd::arithmetic::div_mod::lemma_fundamental_div_mod(x, 0x100);
    vstd::arithmetic::div_mod::lemma_fundamental_div_mod(q1, 0x100);
    vstd::arithmetic::div_mod::lemma_fundamental_div_mod(q2, 0x100);
    vstd::arithmetic::div_mod::lemma_fundamental_div_mod(q3, 0x100);
    vstd::arithmetic::div_mod::lemma_fundamental_div_mod(q4, 0x100);
    vstd::arithmetic::div_mod::lemma_fundamental_div_mod(q5, 0x100);
    vstd::arithmetic::div_mod::lemma_fundamental_div_mod(q6, 0x100);
    assert(q7 < 0x100);
    assert(q7 % 0x100 == q7);
}

/// Reading a signed sample back from its two little-endian bytes gives
/// the encoded value.
pub proof fn lemma_i16_le_roundtrip(v: i16)
    ensures
        spec_i16_le(spec_i16_bytes(v)[0], spec_i16_bytes(v)[1]) == v,
{
}

pub fn u16_le(b0: u8, b1: u8) -> (r: u16)
    ensures
        r == spec_u16_le(b0, b1),
{
    b0 as u16 + b1 as u16 * 0x100
}

pub fn u32_le(b0: u8, b1: u8, b2: u8, b3: u8) -> (r: u32)
    ensures
        r == spec_u32_le(b0, b1, b2, b3),
{
    b0 as u32 + b1 as u32 * 0x100 + b2 as u32 * 0x1_0000 + b3 as u32 * 0x100_0000
}

pub fn u64_le_at(buf: &[u8], off: usize) -> (r: u64)
    requires
        off + 8 <= buf@.len(),
    ensures
        r == spec_u64_le(buf@.subrange(off as int, off as int + 8)),
{
    let r = buf[off] as u64 + buf[off + 1] as u64 * 0x100 + buf[off + 2] as u64 * 0x1_0000
        + buf[off + 3] as u64 * 0x100_0000 + buf[off + 4] as u64 * 0x1_0000_0000
        + buf[off + 5] as u64 * 0x100_0000_0000 + buf[off + 6] as u64 * 0x1_0000_0000_0000
        + buf[off + 7] as u64 * 0x100_0000_0000_0000;
    proof {
        let s = buf@.subrange(off as int, off as int + 8);
        assert(s[0] == buf@[off as int]);
        assert(s[7] == buf@[off as int + 7]);
    }
    r
}

pub fn i16_le(b0: u8, b1: u8) -> (r: i16)
    ensures
        r == spec_i16_le(b0, b1),
{
    let v = b0 as u32 + b1 as u32 * 0x100;
    if v < 0x8000 {
        v as i16
    } else {
        (v as i32 - 0x1_0000) as i16
    }
}

/// Append the two little-endian bytes of `v` to `out`.
pub fn push_u16_le(out: &mut Vec<u8>, v: u16)
    ensures
        final(out)@ == old(out)@ + spec_u16_bytes(v),
{
    out.push((v % 0x100) as u8);
    out.push((v / 0x100) as u8);
    proof {
        assert(final(out)@ =~= old(out)@ + spec_u16_bytes(v));
    }
}

/// Append the four little-endian bytes of `v` to `out`.
pub fn push_u32_le(out: &mut Vec<u8>, v: u32)
    ensures
        final(out)@ == old(out)@ + spec_u32_bytes(v),
{
    out.push((v % 0x100) as u8);
    out.push(((v / 0x100) % 0x100) as u8);
    out.push(((v / 0x1_0000) % 0x100) as u8);
    out.push(((v / 0x100_0000) % 0x100) as u8);
    proof {
        assert(final(out)@ =~= old(out)@ + spec_u32_bytes(v));
    }
}

/// Append the eight little-endian bytes of `v` to `out`.
pub fn push_u64_le(out: &mut Vec<u8>, v: u64)
    ensures
        final(out)@ == old(out)@ + spec_u64_bytes(v),
{
    out.push((v % 0x100) as u8);
    out.push(((v / 0x100) % 0x100) as u8);
    out.push(((v / 0x1_0000) % 0x100) as u8);
    out.push(((v / 0x100_0000) % 0x100) as u8);
    out.push(((v / 0x1_0000_0000) % 0x100) as u8);
    out.push(((v / 0x100_0000_0000) % 0x100) as u8);
    out.push(((v / 0x1_0000_0000_0000) % 0x100) as u8);
    out.push(((v / 0x100_0000_0000_0000) % 0x100) as u8);
    proof {
        assert(final(out)@ =~= old(out)@ + spec_u64_bytes(v));
    }
}

/// Append the two little-endian bytes of a signed sample to `out`.
pub fn push_i16_le(out: &mut Vec<u8>, v: i16)
    ensures
        final(out)@ == old(out)@ + spec_i16_bytes(v),
{
    let u: u16 = if v >= 0 {
        v as u16
    } else {
        (v as i32 + 0x1_0000) as u16
    };
    push_u16_le(out, u);
}

} // verus!
