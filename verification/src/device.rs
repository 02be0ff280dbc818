//! Audio endpoints and their delivery formats.
//!
//! A device is resolved once per session start by the hosting application;
//! the library sees only its identity and the plain facts the pipeline
//! needs: the native sample rate, the channel count, and the sample
//! encoding.  Every encoding is normalised to the internal fixed-point
//! representation once, before the samples enter the shared pipeline.

use vstd::prelude::*;

verus! {

/// A selectable audio endpoint, as the hosting application enumerates it.
#[derive(Clone, Debug)]
pub struct AudioDevice {
    pub id: String,
    pub label: String,
}

/// Sample encoding a device delivers, resolved once at stream
/// construction.
#[derive(Clone, Copy, PartialEq, Eq, Structural, Debug)]
pub enum SampleFormat {
    /// Signed 16-bit integer samples.
    SignedInt16,
    /// Unsigned 16-bit integer samples, silence at the midpoint.
    UnsignedInt16,
    /// 32-bit floating point samples; the hosting application scales them
    /// to fixed point before they reach the library.
    Float32,
}

/// The facts about a resolved device that the capture pipeline is built
/// from.
#[derive(Clone, Copy, Debug)]
pub struct DeviceConfig {
    /// Native sample rate in Hz.
    pub native_rate: u32,
    /// Interleaved channel count.
    pub channels: u32,
    /// Sample encoding of the delivered buffers.
    pub format: SampleFormat,
}

/// Normalises one signed 16-bit sample to fixed point: the encoding's
/// full scale is the fixed-point full scale, so the value carries over.
pub fn normalize_i16(s: i16) -> (q: i32)
    ensures
        q == s as int,
        -32768 <= q <= 32767,
{
    s as i32
}

/// Normalises one unsigned 16-bit sample to fixed point: silence sits at
/// the encoding's midpoint, which maps to zero.
pub fn normalize_u16(s: u16) -> (q: i32)
    ensures
        q == s as int - 32768,
        -32768 <= q <= 32767,
{
    (s as i32) - 32768
}

/// The fixed-point sequence a signed 16-bit buffer normalises to.
pub open spec fn normalized_i16(s: Seq<i16>) -> Seq<i32> {
    Seq::new(s.len(), |i: int| s[i] as i32)
}

/// The fixed-point sequence an unsigned 16-bit buffer normalises to.
pub open spec fn normalized_u16(s: Seq<u16>) -> Seq<i32> {
    Seq::new(s.len(), |i: int| (s[i] - 32768) as i32)
}

/// Normalises a whole signed 16-bit buffer to fixed point.
pub fn normalize_block_i16(samples: &Vec<i16>) -> (out: Vec<i32>)
    ensures
        out@ == normalized_i16(samples@),
{
    let mut out: Vec<i32> = Vec::new();
    let mut i: usize = 0;
    while i < samples.len()
        invariant
            i <= samples@.len(),
            out@ =~= normalized_i16(samples@).take(i as int),
        decreases samples@.len() - i,
    {
        out.push(normalize_i16(samples[i]));
        i = i + 1;
    }
    proof {
        assert(out@ =~= normalized_i16(samples@));
    }
    out
}

/// Normalises a whole unsigned 16-bit buffer to fixed point.
pub fn normalize_block_u16(samples: &Vec<u16>) -> (out: Vec<i32>)
    ensures
        out@ == normalized_u16(samples@),
{
    let mut out: Vec<i32> = Vec::new();
    let mut i: usize = 0;
    while i < samples.len()
        invariant
            i <= samples@.len(),
            out@ =~= normalized_u16(samples@).take(i as int),
        decreases samples@.len() - i,
    {
        out.push(normalize_u16(samples[i]));
        i = i + 1;
    }
    proof {
        assert(out@ =~= normalized_u16(samples@));
    }
    out
}

} // verus!
