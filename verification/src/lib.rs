//! Core of a live audio capture pipeline: a hardware callback delivers
//! interleaved multi-channel audio in irregular block sizes; this library
//! downmixes each frame to mono, buffers the samples in a fixed-capacity
//! ring buffer that never blocks the producer, converts fixed-size windows
//! to the target sample rate, and encodes the result as 16-bit signed PCM
//! chunks for an output sink.  A reference-counted lifecycle state machine
//! governs when the single hardware stream is opened and closed.
//!
//! Samples are Q15 fixed-point integers: an `i32` value `q` stands for the
//! amplitude `q / 32768`, so `32768` is full scale (`1.0`) and `-32768` is
//! negative full scale (`-1.0`).  Device callbacks that deliver floating
//! point audio convert to this representation before entering the pipeline.

pub mod device;
pub mod downmix;
pub mod engine;
pub mod pcm;
pub mod resample;
pub mod ring;
pub mod session;
