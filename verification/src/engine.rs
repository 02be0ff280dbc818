//! The per-delivery capture pipeline.
//!
//! An engine owns the ring buffer and the sample-rate converter of one
//! open stream.  Each hardware delivery runs the same cycle inside the
//! callback: downmix every complete frame to mono, push the mono samples
//! into the ring buffer best-effort (a full buffer drops the newest
//! samples rather than block), then, while a full input window is
//! buffered, drain one window, convert it, and encode the converted
//! window as a 16-bit PCM chunk for the output sink.  A delivery can
//! yield zero chunks — the window is simply not full yet — or several.
//!
//! The ring buffer is sized at a fixed small multiple of the converter's
//! input window, so memory is bounded for the life of the stream.

use vstd::prelude::*;
use vstd::arithmetic::div_mod::{lemma_fundamental_div_mod_converse, lemma_mod_bound};
use crate::device::DeviceConfig;
use crate::downmix::{downmix_block, downmixed};
use crate::pcm::{encode_block, pcm_encoded};
use crate::resample::{required_input_len, resampled, valid_params, ResampleError, Resampler};
use crate::ring::{after_pushes, RingBuffer};

verus! {

/// Ring-buffer capacity as a multiple of the converter's input window.
pub const RING_BLOCKS: usize = 4;

/// The fixed target rate the pipeline converts to, in Hz.
pub const TARGET_RATE_HZ: u32 = 16000;

/// Default output window length, in samples per chunk.
pub const DEFAULT_CHUNK_LEN: usize = 1024;

/// Why an engine could not be built; fatal to the start attempt and
/// surfaced to the caller, never retried automatically.
#[derive(Clone, Copy, PartialEq, Eq, Structural, Debug)]
pub enum EngineBuildError {
    /// The device reports no channels: its format is unusable.
    NoChannels,
    /// The sample-rate converter rejected the rates or window.
    Converter(ResampleError),
    /// The ring buffer for this input window would not fit in memory.
    BufferTooLarge,
}

/// Whether an engine can be built for this device, target rate and output
/// window: the device has at least one channel, the converter parameters
/// are valid, and the ring buffer fits in memory.
pub open spec fn buildable(cfg: DeviceConfig, target_rate: u32, output_len: int) -> bool {
    &&& cfg.channels >= 1
    &&& valid_params(cfg.native_rate as int, target_rate as int, output_len)
    &&& RING_BLOCKS * required_input_len(cfg.native_rate as int, target_rate as int, output_len)
        <= usize::MAX
}

/// The error a failed build reports: the first condition in the build
/// order that rejects the parameters.
pub open spec fn build_failure(cfg: DeviceConfig, target_rate: u32, output_len: int) -> EngineBuildError {
    if cfg.channels == 0 {
        EngineBuildError::NoChannels
    } else if cfg.native_rate == 0 || target_rate == 0 {
        EngineBuildError::Converter(ResampleError::ZeroRate)
    } else if required_input_len(cfg.native_rate as int, target_rate as int, output_len) < 1 {
        EngineBuildError::Converter(ResampleError::WindowTooSmall)
    } else if required_input_len(cfg.native_rate as int, target_rate as int, output_len)
        > usize::MAX {
        EngineBuildError::Converter(ResampleError::WindowTooLarge)
    } else {
        EngineBuildError::BufferTooLarge
    }
}

pub struct CaptureEngine {
    channels: u32,
    ring: RingBuffer,
    resampler: Resampler,
}

impl CaptureEngine {
    /// Interleaved channel count of the stream this engine serves.
    pub closed spec fn channels_spec(&self) -> u32 {
        self.channels
    }

    /// Mono samples currently buffered between deliveries, oldest first.
    pub closed spec fn buffered(&self) -> Seq<i32> {
        self.ring@
    }

    /// Input window length of the converter.
    pub closed spec fn in_len(&self) -> int {
        self.resampler.input_len_spec()
    }

    /// Output window length of the converter.
    pub closed spec fn out_len(&self) -> int {
        self.resampler.output_len_spec()
    }

    /// Native rate the engine was built for.
    pub closed spec fn native_spec(&self) -> u32 {
        self.resampler.native_spec()
    }

    /// Target rate the engine was built for.
    pub closed spec fn target_spec(&self) -> u32 {
        self.resampler.target_spec()
    }

    /// Ring-buffer capacity.
    pub closed spec fn ring_capacity(&self) -> int {
        self.ring.capacity_spec()
    }

    pub closed spec fn wf(&self) -> bool {
        &&& 1 <= self.channels
        &&& self.ring.wf()
        &&& self.resampler.wf()
        &&& self.ring.capacity_spec() == RING_BLOCKS * self.resampler.input_len_spec()
    }

    /// The buffered samples always fit the fixed capacity.
    pub proof fn lemma_buffered_bounded(&self)
        requires
            self.wf(),
        ensures
            self.buffered().len() <= self.ring_capacity(),
            self.ring_capacity() == RING_BLOCKS * self.in_len(),
    {
        self.ring.lemma_occupied_bounded();
    }

    /// Builds the engine for a resolved device: the converter for the
    /// device's native rate, and a ring buffer sized at `RING_BLOCKS`
    /// input windows.  Succeeds exactly when the device has at least one
    /// channel, the converter parameters are valid, and the buffer fits;
    /// each error names the condition that failed.
    pub fn build(cfg: &DeviceConfig, target_rate: u32, output_len: usize) -> (r: Result<
        CaptureEngine,
        EngineBuildError,
    >)
        ensures
            r matches Ok(e) ==> {
                &&& e.wf()
                &&& e.channels_spec() == cfg.channels
                &&& e.native_spec() == cfg.native_rate
                &&& e.target_spec() == target_rate
                &&& e.out_len() == output_len
                &&& e.in_len() == required_input_len(
                    cfg.native_rate as int,
                    target_rate as int,
                    output_len as int,
                )
                &&& e.ring_capacity() == RING_BLOCKS * e.in_len()
                &&& e.buffered() == Seq::<i32>::empty()
            },
            r is Ok <==> buildable(*cfg, target_rate, output_len as int),
            r matches Err(e) ==> e == build_failure(*cfg, target_rate, output_len as int),
    {
        if cfg.channels == 0 {
            return Err(EngineBuildError::NoChannels);
        }
        let resampler = match Resampler::new(cfg.native_rate, target_rate, output_len) {
            Ok(rs) => rs,
            Err(e) => {
                return Err(EngineBuildError::Converter(e));
            },
        };
        let in_len = resampler.input_block_length();
        if in_len > usize::MAX / RING_BLOCKS {
            proof {
                assert(RING_BLOCKS * (in_len as int) > usize::MAX) by (nonlinear_arith)
                    requires
                        in_len as int > (usize::MAX as int) / 4,
                ;
            }
            return Err(EngineBuildError::BufferTooLarge);
        }
        let ring = RingBuffer::new(RING_BLOCKS * in_len);
        Ok(CaptureEngine { channels: cfg.channels, ring, resampler })
    }

    /// Exact number of mono samples one conversion cycle consumes.
    pub fn input_block_length(&self) -> (n: usize)
        requires
            self.wf(),
        ensures
            n == self.in_len(),
            1 <= n,
    {
        self.resampler.input_block_length()
    }

    /// Number of PCM samples in every produced chunk.
    pub fn output_block_length(&self) -> (n: usize)
        requires
            self.wf(),
        ensures
            n == self.out_len(),
            1 <= n,
    {
        self.resampler.output_block_length()
    }

    /// Mono samples currently waiting for a full input window.
    pub fn buffered_len(&self) -> (n: usize)
        requires
            self.wf(),
        ensures
            n == self.buffered().len(),
    {
        self.ring.occupied_len()
    }

    /// Runs one hardware delivery through the pipeline: downmix every
    /// complete frame, push the mono samples best-effort into the ring
    /// buffer, then drain and convert one input window at a time while a
    /// full window is buffered.  Returns the PCM chunks produced, in
    /// order, each exactly one output window long; what remains short of
    /// a window stays buffered for the next delivery.
    pub fn process_block(&mut self, input: &Vec<i32>) -> (chunks: Vec<Vec<i16>>)
        requires
            old(self).wf(),
        ensures
            final(self).wf(),
            final(self).channels_spec() == old(self).channels_spec(),
            final(self).native_spec() == old(self).native_spec(),
            final(self).target_spec() == old(self).target_spec(),
            final(self).in_len() == old(self).in_len(),
            final(self).out_len() == old(self).out_len(),
            final(self).ring_capacity() == old(self).ring_capacity(),
            ({
                let filled = after_pushes(
                    old(self).buffered(),
                    downmixed(input@, old(self).channels_spec() as int),
                    old(self).ring_capacity(),
                );
                let n = filled.len() as int / old(self).in_len();
                &&& chunks@.len() == n
                &&& (forall|c: int|
                    0 <= c < n ==> (#[trigger] chunks@[c])@ == pcm_encoded(
                        resampled(
                            filled.subrange(c * old(self).in_len(), (c + 1) * old(self).in_len()),
                            old(self).out_len(),
                        ),
                    ))
                &&& (forall|c: int| 0 <= c < n ==> (#[trigger] chunks@[c])@.len() == old(
                    self,
                ).out_len())
                &&& final(self).buffered() == filled.skip(n * old(self).in_len())
            }),
    {
        let mono = downmix_block(input, self.channels);
        self.ring.push_block(&mono);
        let ghost filled = self.ring@;
        let ghost g_in = self.in_len();
        let ghost g_out = self.out_len();
        let in_len = self.resampler.input_block_length();

        // Scratch window, reused across cycles.
        let mut window: Vec<i32> = Vec::new();
        let mut w: usize = 0;
        while w < in_len
            invariant
                w <= in_len,
                window@.len() == w,
            decreases in_len - w,
        {
            window.push(0);
            w = w + 1;
        }

        let mut chunks: Vec<Vec<i16>> = Vec::new();
        while self.ring.occupied_len() >= in_len
            invariant
                self.wf(),
                in_len == g_in,
                1 <= g_in,
                g_in == self.in_len(),
                g_out == self.out_len(),
                self.channels_spec() == old(self).channels_spec(),
                self.native_spec() == old(self).native_spec(),
                self.target_spec() == old(self).target_spec(),
                self.ring_capacity() == old(self).ring_capacity(),
                self.resampler == old(self).resampler,
                window@.len() == g_in,
                chunks@.len() * g_in <= filled.len(),
                self.buffered() == filled.skip(chunks@.len() * g_in),
                forall|c: int|
                    0 <= c < chunks@.len() ==> (#[trigger] chunks@[c])@ == pcm_encoded(
                        resampled(filled.subrange(c * g_in, (c + 1) * g_in), g_out),
                    ),
                forall|c: int| 0 <= c < chunks@.len() ==> (#[trigger] chunks@[c])@.len() == g_out,
            decreases self.ring@.len(),
        {
            let ghost p = chunks@.len() as int;
            let ghost pre = self.buffered();
            let k = self.ring.pop_into(&mut window);
            proof {
                assert(k == g_in);
                assert(window@ =~= pre.take(g_in));
                assert(pre.take(g_in) =~= filled.subrange(p * g_in, p * g_in + g_in));
                assert((p + 1) * g_in == p * g_in + g_in) by (nonlinear_arith);
                assert(self.buffered() =~= filled.skip((p + 1) * g_in));
            }
            let converted = self.resampler.convert(&window);
            let chunk = encode_block(&converted);
            chunks.push(chunk);
            proof {
                assert(chunks@[p]@ == pcm_encoded(
                    resampled(filled.subrange(p * g_in, (p + 1) * g_in), g_out),
                ));
                assert((p + 1) * g_in <= filled.len());
            }
        }
        proof {
            let p = chunks@.len() as int;
            let rem = filled.len() - p * g_in;
            assert(0 <= rem < g_in);
            lemma_fundamental_div_mod_converse(filled.len() as int, g_in, p, rem);
            assert(p == filled.len() as int / g_in);
        }
        chunks
    }
}

} // verus!
