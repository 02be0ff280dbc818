//! Encoding of converted samples as 16-bit signed PCM.
//!
//! A fixed-point sample is clamped to the full-scale range before it is
//! narrowed to `i16`, so extreme input can never overflow or wrap in the
//! integer output.  Chunks are serialised as little-endian byte pairs, the
//! wire format the output sink consumes.

use vstd::prelude::*;

verus! {

/// Largest PCM value a chunk may carry; full scale `1.0` encodes to this.
pub const PCM_MAX: i16 = 32767;

/// Smallest PCM value a chunk may carry; full scale `-1.0` encodes to this.
/// The clamp floor is `-32767`, not `-32768`, so the encoded range is
/// symmetric and negating an encoded sample can never overflow.
pub const PCM_MIN: i16 = -32767;

/// What a fixed-point sample encodes to: itself, saturated to the
/// symmetric 16-bit signed range.
pub open spec fn clamp_pcm(q: int) -> int {
    if q > PCM_MAX as int {
        PCM_MAX as int
    } else if q < PCM_MIN as int {
        PCM_MIN as int
    } else {
        q
    }
}

/// The PCM encoding of a whole block of fixed-point samples.
pub open spec fn pcm_encoded(samples: Seq<i32>) -> Seq<i16> {
    Seq::new(samples.len(), |j: int| clamp_pcm(samples[j] as int) as i16)
}

/// Encodes one fixed-point sample as 16-bit signed PCM, saturating at the
/// range bounds instead of wrapping.
pub fn pcm_encode(sample: i32) -> (p: i16)
    ensures
        p as int == clamp_pcm(sample as int),
        PCM_MIN <= p <= PCM_MAX,
{
    if sample > PCM_MAX as i32 {
        PCM_MAX
    } else if sample < PCM_MIN as i32 {
        PCM_MIN
    } else {
        sample as i16
    }
}

/// Encodes a block of fixed-point samples as 16-bit signed PCM.
pub fn encode_block(samples: &Vec<i32>) -> (out: Vec<i16>)
    ensures
        out@ == pcm_encoded(samples@),
{
    let mut out: Vec<i16> = Vec::new();
    let mut i: usize = 0;
    while i < samples.len()
        invariant
            i <= samples@.len(),
            out@ =~= pcm_encoded(samples@).take(i as int),
        decreases samples@.len() - i,
    {
        out.push(pcm_encode(samples[i]));
        i = i + 1;
    }
    proof {
        assert(out@ =~= pcm_encoded(samples@));
    }
    out
}

/// Low byte of a PCM sample on the wire (little endian).
pub open spec fn le_lo(s: i16) -> u8 {
    ((s as u16) % 256) as u8
}

/// High byte of a PCM sample on the wire (little endian).
pub open spec fn le_hi(s: i16) -> u8 {
    ((s as u16) / 256) as u8
}

/// The little-endian byte stream of a PCM chunk: each sample as its low
/// byte followed by its high byte.
pub open spec fn s16le_bytes(chunk: Seq<i16>) -> Seq<u8> {
    Seq::new(
        2 * chunk.len(),
        |i: int|
            if i % 2 == 0 {
                le_lo(chunk[i / 2])
            } else {
                le_hi(chunk[i / 2])
            },
    )
}

/// The PCM sample a little-endian byte pair carries.
pub open spec fn s16_from(lo: u8, hi: u8) -> i16 {
    (((hi as int) * 256 + (lo as int)) as u16) as i16
}

/// The PCM chunk a little-endian byte stream carries; a trailing odd byte
/// is ignored.
pub open spec fn s16le_decoded(b: Seq<u8>) -> Seq<i16> {
    Seq::new((b.len() as int / 2) as nat, |j: int| s16_from(b[2 * j], b[2 * j + 1]))
}

/// Serialises a PCM chunk as little-endian bytes, the wire format the
/// output sink consumes.
pub fn chunk_to_bytes(chunk: &Vec<i16>) -> (b: Vec<u8>)
    ensures
        b@ == s16le_bytes(chunk@),
        b@.len() == 2 * chunk@.len(),
{
    let n = chunk.len();
    let mut b: Vec<u8> = Vec::new();
    let mut i: usize = 0;
    while i < n
        invariant
            i <= n,
            n == chunk@.len(),
            b@ =~= s16le_bytes(chunk@).take(2 * i as int),
        decreases n - i,
    {
        let u: u16 = #[verifier::truncate] (chunk[i] as u16);
        let lo: u8 = (u % 256) as u8;
        let hi: u8 = (u / 256) as u8;
        b.push(lo);
        b.push(hi);
        proof {
            let w = s16le_bytes(chunk@);
            assert((2 * i as int) / 2 == i as int);
            assert((2 * i as int + 1) / 2 == i as int);
            assert(w[2 * i as int] == le_lo(chunk@[i as int]));
            assert(w[2 * i as int + 1] == le_hi(chunk@[i as int]));
            assert(b@ =~= w.take(2 * (i + 1)));
        }
        i = i + 1;
    }
    proof {
        assert(b@ =~= s16le_bytes(chunk@));
    }
    b
}

/// Parses a little-endian byte stream back into PCM samples; a trailing
/// odd byte is ignored.
pub fn decode_s16le(bytes: &Vec<u8>) -> (out: Vec<i16>)
    ensures
        out@ == s16le_decoded(bytes@),
{
    let len = bytes.len();
    let n = len / 2;
    let mut out: Vec<i16> = Vec::new();
    let mut j: usize = 0;
    while j < n
        invariant
            j <= n,
            len == bytes@.len(),
            n == len as int / 2,
            2 * n <= len,
            out@ =~= s16le_decoded(bytes@).take(j as int),
        decreases n - j,
    {
        let lo = bytes[2 * j];
        let hi = bytes[2 * j + 1];
        let u: u16 = (hi as u16) * 256 + (lo as u16);
        let s: i16 = #[verifier::truncate] (u as i16);
        proof {
            assert(s == s16_from(lo, hi));
            assert(out@.push(s) =~= s16le_decoded(bytes@).take(j + 1));
        }
        out.push(s);
        j = j + 1;
    }
    proof {
        assert(out@ =~= s16le_decoded(bytes@));
    }
    out
}

/// Framing law: decoding the little-endian bytes of a PCM chunk yields
/// the chunk back exactly.
pub proof fn lemma_s16le_round_trip(chunk: Seq<i16>)
    ensures
        s16le_decoded(s16le_bytes(chunk)) == chunk,
{
    let b = s16le_bytes(chunk);
    assert(b.len() as int / 2 == chunk.len());
    assert forall|j: int| 0 <= j < chunk.len() implies s16le_decoded(b)[j] == chunk[j] by {
        assert((2 * j) % 2 == 0);
        assert((2 * j + 1) % 2 == 1int);
        assert((2 * j) / 2 == j);
        assert((2 * j + 1) / 2 == j);
        let s = chunk[j];
        let u = s as u16;
        assert(b[2 * j] == le_lo(s));
        assert(b[2 * j + 1] == le_hi(s));
        assert((u / 256) * 256 + u % 256 == u) by (nonlinear_arith);
        assert(u / 256 <= 255);
        assert(s16_from(le_lo(s), le_hi(s)) == (u as int as u16) as i16);
        assert((s as u16) as i16 == s) by (bit_vector);
    }
    assert(s16le_decoded(s16le_bytes(chunk)) =~= chunk);
}

} // verus!
