//! Integer half of the automatic gain stage.
//!
//! The sample body of a 16-bit PCM packet is an array of little-endian
//! signed 16-bit samples. This module decodes the body into samples,
//! finds the peak amplitude that the clamp of the gain accumulator is
//! computed from, and writes a reworked sample array back into the
//! datagram buffer without touching the header bytes. The accumulator
//! itself and the per-sample multiplier are floating-point state and
//! live with the caller; every byte-level step is here, with its
//! contract.

use vstd::arithmetic::div_mod::lemma_fundamental_div_mod_converse;
use vstd::prelude::*;

use crate::HEADER_SIZE;

verus! {

/// Signed value of a little-endian 16-bit sample stored as `lo`, `hi`.
pub open spec fn spec_i16_val(lo: u8, hi: u8) -> int {
    if lo + hi * 0x100 < 0x8000 {
        lo + hi * 0x100
    } else {
        lo + hi * 0x100 - 0x1_0000
    }
}

/// The same value as an `i16`.
pub open spec fn spec_sample(lo: u8, hi: u8) -> i16 {
    spec_i16_val(lo, hi) as i16
}

/// Two's-complement image of a sample, in `0 .. 0x1_0000`.
pub open spec fn spec_unsigned16(s: i16) -> int {
    if s >= 0 {
        s as int
    } else {
        s + 0x1_0000
    }
}

/// Low byte of a sample's little-endian encoding.
pub open spec fn spec_lo(s: i16) -> u8 {
    (spec_unsigned16(s) % 0x100) as u8
}

/// High byte of a sample's little-endian encoding.
pub open spec fn spec_hi(s: i16) -> u8 {
    (spec_unsigned16(s) / 0x100) as u8
}

/// The samples held by a body, pairing bytes little-endian; a trailing
/// odd byte belongs to no sample.
pub open spec fn spec_decode_i16(b: Seq<u8>) -> Seq<i16> {
    Seq::new((b.len() / 2) as nat, |i: int| spec_sample(b[2 * i], b[2 * i + 1]))
}

/// The little-endian byte image of a sample array.
pub open spec fn spec_encode_i16(s: Seq<i16>) -> Seq<u8> {
    Seq::new(2 * s.len(), |j: int| if j % 2 == 0 { spec_lo(s[j / 2]) } else { spec_hi(s[j / 2]) })
}

/// Absolute value of a sample, as an unbounded integer.
pub open spec fn spec_abs16(s: i16) -> int {
    if s < 0 {
        -(s as int)
    } else {
        s as int
    }
}

/// Peak amplitude of a sample array; 0 when the array is empty or all
/// samples are zero.
pub open spec fn spec_peak(s: Seq<i16>) -> int
    decreases s.len(),
{
    if s.len() == 0 {
        0
    } else if spec_abs16(s.last()) > spec_peak(s.drop_last()) {
        spec_abs16(s.last())
    } else {
        spec_peak(s.drop_last())
    }
}

/// Encoding a sample and reading the pair back yields the sample.
proof fn lemma_sample_roundtrip(s: i16)
    ensures
        spec_sample(spec_lo(s), spec_hi(s)) == s,
{
    let v = spec_unsigned16(s);
    lemma_fundamental_div_mod_converse(v, 0x100, v / 0x100, v % 0x100);
}

/// Reading a byte pair and encoding the sample again yields the pair.
proof fn lemma_bytes_roundtrip(lo: u8, hi: u8)
    ensures
        spec_lo(spec_sample(lo, hi)) == lo,
        spec_hi(spec_sample(lo, hi)) == hi,
{
    let s = spec_sample(lo, hi);
    assert(spec_unsigned16(s) == lo + hi * 0x100);
    lemma_fundamental_div_mod_converse(lo + hi * 0x100, 0x100, hi as int, lo as int);
}

/// Signed value of the sample stored as the byte pair `lo`, `hi`.
fn i16_from_le(lo: u8, hi: u8) -> (r: i16)
    ensures
        r == spec_sample(lo, hi),
{
    let v: i32 = lo as i32 + hi as i32 * 0x100;
    if v < 0x8000 {
        v as i16
    } else {
        (v - 0x1_0000) as i16
    }
}

/// Little-endian byte pair of the sample `s`.
fn i16_to_le(s: i16) -> (r: (u8, u8))
    ensures
        r.0 == spec_lo(s),
        r.1 == spec_hi(s),
{
    let v: i32 = if s >= 0 {
        s as i32
    } else {
        s as i32 + 0x1_0000
    };
    ((v % 0x100) as u8, (v / 0x100) as u8)
}

/// Decodes a sample body into its little-endian 16-bit samples; a
/// trailing odd byte is ignored, as it is when the body is written back.
pub fn decode_samples(body: &Vec<u8>) -> (r: Vec<i16>)
    ensures
        r@ == spec_decode_i16(body@),
{
    let mut r: Vec<i16> = Vec::new();
    let n = body.len() / 2;
    let mut i: usize = 0;
    while i < n
        invariant
            i <= n,
            n == body@.len() / 2,
            body@.len() <= usize::MAX,
            r@.len() == i,
            forall|k: int| 0 <= k < i ==> r@[k] == spec_sample(body@[2 * k], body@[2 * k + 1]),
        decreases n - i,
    {
        let s = i16_from_le(body[2 * i], body[2 * i + 1]);
        r.push(s);
        i += 1;
    }
    proof {
        assert(r@ =~= spec_decode_i16(body@));
    }
    r
}

/// Peak amplitude over a sample array. Silence (or an empty body)
/// reports 0, and the caller then leaves the gain accumulator
/// unclamped: silence places no bound on it.
pub fn peak_abs(samples: &Vec<i16>) -> (r: u16)
    ensures
        r == spec_peak(samples@),
        forall|k: int| 0 <= k < samples@.len() ==> spec_abs16(samples@[k]) <= r,
{
    let mut m: u16 = 0;
    let mut i: usize = 0;
    while i < samples.len()
        invariant
            i <= samples@.len(),
            m == spec_peak(samples@.take(i as int)),
            forall|k: int| 0 <= k < i ==> spec_abs16(samples@[k]) <= m,
        decreases samples@.len() - i,
    {
        let s = samples[i];
        let a: u16 = if s >= 0 {
            s as u16
        } else {
            (-(s as i32)) as u16
        };
        proof {
            assert(samples@.take(i + 1).drop_last() =~= samples@.take(i as int));
            assert(samples@.take(i + 1).last() == samples@[i as int]);
        }
        if a > m {
            m = a;
        }
        i += 1;
    }
    proof {
        assert(samples@.take(samples@.len() as int) =~= samples@);
    }
    m
}

/// Writes a sample array back over the body of the datagram held in
/// `buf`, little-endian, leaving the header bytes and a trailing odd
/// body byte exactly as they were.
pub fn write_body(buf: &mut Vec<u8>, samples: &Vec<i16>)
    requires
        old(buf)@.len() >= HEADER_SIZE,
        samples@.len() == (old(buf)@.len() - HEADER_SIZE) / 2,
    ensures
        final(buf)@.len() == old(buf)@.len(),
        final(buf)@.subrange(0, HEADER_SIZE as int) == old(buf)@.subrange(0, HEADER_SIZE as int),
        final(buf)@.skip(HEADER_SIZE as int).take(2 * samples@.len() as int) == spec_encode_i16(
            samples@,
        ),
        (old(buf)@.len() - HEADER_SIZE) % 2 == 1 ==> final(buf)@.last() == old(buf)@.last(),
{
    let n = samples.len();
    let blen = buf.len();
    let mut i: usize = 0;
    while i < n
        invariant
            i <= n,
            n == samples@.len(),
            buf@.len() == old(buf)@.len(),
            buf@.len() == blen,
            old(buf)@.len() >= HEADER_SIZE,
            n == (old(buf)@.len() - HEADER_SIZE) / 2,
            forall|j: int| 0 <= j < HEADER_SIZE ==> buf@[j] == old(buf)@[j],
            forall|k: int|
                0 <= k < i ==> buf@[HEADER_SIZE + 2 * k] == spec_lo(samples@[k]) && buf@[
                    HEADER_SIZE + 2 * k + 1
                ] == spec_hi(samples@[k]),
            forall|j: int|
                HEADER_SIZE + 2 * i <= j < buf@.len() ==> buf@[j] == old(buf)@[j],
        decreases n - i,
    {
        let (lo, hi) = i16_to_le(samples[i]);
        buf.set(HEADER_SIZE + 2 * i, lo);
        buf.set(HEADER_SIZE + 2 * i + 1, hi);
        i += 1;
    }
    proof {
        assert(final(buf)@.subrange(0, HEADER_SIZE as int) =~= old(buf)@.subrange(
            0,
            HEADER_SIZE as int,
        ));
        assert(final(buf)@.skip(HEADER_SIZE as int).take(2 * samples@.len() as int)
            =~= spec_encode_i16(samples@));
    }
}

/// Re-encoding the samples a body decodes to reproduces the body: the
/// write-back of an unchanged sample array is byte-identical, up to the
/// trailing odd byte that carries no sample.
pub proof fn lemma_encode_decode(b: Seq<u8>)
    ensures
        spec_encode_i16(spec_decode_i16(b)) == b.take(b.len() as int - (b.len() % 2) as int),
{
    let s = spec_decode_i16(b);
    let e = spec_encode_i16(s);
    assert forall|j: int| 0 <= j < e.len() implies e[j] == b[j] by {
        lemma_bytes_roundtrip(b[2 * (j / 2)], b[2 * (j / 2) + 1]);
        lemma_fundamental_div_mod_converse(j, 2, j / 2, j % 2);
    }
    assert(e =~= b.take(b.len() as int - (b.len() % 2) as int));
}

/// Decoding the byte image of a sample array yields the array back.
pub proof fn lemma_decode_encode(s: Seq<i16>)
    ensures
        spec_decode_i16(spec_encode_i16(s)) == s,
{
    let d = spec_decode_i16(spec_encode_i16(s));
    assert forall|i: int| 0 <= i < d.len() implies d[i] == s[i] by {
        lemma_sample_roundtrip(s[i]);
    }
    assert(d =~= s);
}

} // verus!
