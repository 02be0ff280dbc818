//! Fixed-window sample-rate conversion.
//!
//! The converter consumes mono blocks of a fixed input length at the native
//! rate and produces blocks of a fixed, caller-chosen output length at the
//! target rate.  Both window lengths are computed once at construction from
//! `(native_rate, target_rate, output_len)`: the input window is the span
//! of native-rate samples that covers one output window,
//! `output_len * native_rate / target_rate`.  Conversion picks, for each
//! output position, the input sample at the proportionally scaled
//! position; every value stays in fixed point and no arithmetic is done on
//! the samples themselves.
//!
//! Construction fails, and capture start must surface the failure, when a
//! rate is zero or when the ratio is not representable as a usable window:
//! an input window that would be empty or would not fit in memory.

use vstd::prelude::*;
use vstd::arithmetic::div_mod::lemma_multiply_divide_lt;
use vstd::arithmetic::mul::{lemma_mul_inequality, lemma_mul_nonnegative};

verus! {

/// Why a converter could not be constructed.
#[derive(Clone, Copy, PartialEq, Eq, Structural, Debug)]
pub enum ResampleError {
    /// The native or the target rate is zero.
    ZeroRate,
    /// The required input window is empty: `output_len * native_rate`
    /// is less than `target_rate`.
    WindowTooSmall,
    /// The required input window does not fit in a `usize`.
    WindowTooLarge,
}

/// Input window length the conversion ratio demands: the number of
/// native-rate samples that cover `out_len` target-rate samples.
pub open spec fn required_input_len(native: int, target: int, out_len: int) -> int {
    out_len * native / target
}

/// Parameters a converter can be built from.
pub open spec fn valid_params(native: int, target: int, out_len: int) -> bool {
    &&& 1 <= native
    &&& 1 <= target
    &&& 1 <= required_input_len(native, target, out_len)
    &&& required_input_len(native, target, out_len) <= usize::MAX
}

/// The input position output position `j` reads from.
pub open spec fn source_index(j: int, in_len: int, out_len: int) -> int {
    j * in_len / out_len
}

/// The output window a full input window converts to.
pub open spec fn resampled(input: Seq<i32>, out_len: int) -> Seq<i32> {
    Seq::new(out_len as nat, |j: int| input[source_index(j, input.len() as int, out_len)])
}

pub struct Resampler {
    native_rate: u32,
    target_rate: u32,
    output_len: usize,
    input_len: usize,
}

impl Resampler {
    pub closed spec fn native_spec(&self) -> u32 {
        self.native_rate
    }

    pub closed spec fn target_spec(&self) -> u32 {
        self.target_rate
    }

    pub closed spec fn output_len_spec(&self) -> int {
        self.output_len as int
    }

    pub closed spec fn input_len_spec(&self) -> int {
        self.input_len as int
    }

    pub closed spec fn wf(&self) -> bool {
        &&& valid_params(
            self.native_rate as int,
            self.target_rate as int,
            self.output_len as int,
        )
        &&& self.input_len as int == required_input_len(
            self.native_rate as int,
            self.target_rate as int,
            self.output_len as int,
        )
    }

    /// Window law: the input window of a well-formed converter is a fixed
    /// positive function of the construction parameters alone, and no
    /// method takes the converter by mutable reference, so
    /// `input_block_length` returns the same positive value at every point
    /// of the converter's lifetime.
    pub proof fn lemma_window_determined(&self)
        requires
            self.wf(),
        ensures
            self.input_len_spec() == required_input_len(
                self.native_spec() as int,
                self.target_spec() as int,
                self.output_len_spec(),
            ),
            1 <= self.input_len_spec(),
            1 <= self.output_len_spec(),
            valid_params(
                self.native_spec() as int,
                self.target_spec() as int,
                self.output_len_spec(),
            ),
    {
        if self.output_len == 0 {
            assert(0 * self.native_rate as int == 0);
        }
    }

    /// Builds a converter for the given rates and desired output window
    /// length.  Succeeds exactly on valid parameters; each error names the
    /// condition that rejected the parameters.
    pub fn new(native_rate: u32, target_rate: u32, output_len: usize) -> (r: Result<
        Resampler,
        ResampleError,
    >)
        ensures
            r is Ok <==> valid_params(native_rate as int, target_rate as int, output_len as int),
            r matches Ok(rs) ==> {
                &&& rs.wf()
                &&& rs.native_spec() == native_rate
                &&& rs.target_spec() == target_rate
                &&& rs.output_len_spec() == output_len
                &&& rs.input_len_spec() == required_input_len(
                    native_rate as int,
                    target_rate as int,
                    output_len as int,
                )
            },
            r == Err::<Resampler, ResampleError>(ResampleError::ZeroRate) <==> (native_rate == 0
                || target_rate == 0),
            r == Err::<Resampler, ResampleError>(ResampleError::WindowTooSmall) <==> (native_rate
                >= 1 && target_rate >= 1 && required_input_len(
                native_rate as int,
                target_rate as int,
                output_len as int,
            ) < 1),
            r == Err::<Resampler, ResampleError>(ResampleError::WindowTooLarge) <==> (native_rate
                >= 1 && target_rate >= 1 && required_input_len(
                native_rate as int,
                target_rate as int,
                output_len as int,
            ) > usize::MAX),
    {
        if native_rate == 0 || target_rate == 0 {
            return Err(ResampleError::ZeroRate);
        }
        proof {
            lemma_mul_nonnegative(output_len as int, native_rate as int);
            assert((output_len as int) * (native_rate as int) <= 0xffff_ffff_ffff_ffff
                * 0xffff_ffff) by (nonlinear_arith)
                requires
                    0 <= output_len as int <= 0xffff_ffff_ffff_ffff,
                    0 <= native_rate as int <= 0xffff_ffff,
            ;
        }
        let covered: u128 = (output_len as u128) * (native_rate as u128);
        let required: u128 = covered / (target_rate as u128);
        if required == 0 {
            return Err(ResampleError::WindowTooSmall);
        }
        if required > usize::MAX as u128 {
            return Err(ResampleError::WindowTooLarge);
        }
        Ok(Resampler { native_rate, target_rate, output_len, input_len: required as usize })
    }

    /// Exact number of samples every call of `convert` consumes, fixed at
    /// construction.
    pub fn input_block_length(&self) -> (n: usize)
        requires
            self.wf(),
        ensures
            n == self.input_len_spec(),
            1 <= n,
    {
        self.input_len
    }

    /// Number of samples every call of `convert` produces, fixed at
    /// construction.
    pub fn output_block_length(&self) -> (n: usize)
        requires
            self.wf(),
        ensures
            n == self.output_len_spec(),
            1 <= n,
    {
        proof {
            self.lemma_window_determined();
        }
        self.output_len
    }

    /// Converts one full input window to one full output window: output
    /// position `j` carries the input sample at the proportionally scaled
    /// position `j * input_len / output_len`.
    pub fn convert(&self, input: &Vec<i32>) -> (out: Vec<i32>)
        requires
            self.wf(),
            input@.len() == self.input_len_spec(),
        ensures
            out@ == resampled(input@, self.output_len_spec()),
            out@.len() == self.output_len_spec(),
    {
        proof {
            self.lemma_window_determined();
        }
        let in_len: usize = self.input_len;
        let out_len: usize = self.output_len;
        let mut out: Vec<i32> = Vec::new();
        let mut j: usize = 0;
        while j < out_len
            invariant
                j <= out_len,
                in_len == self.input_len_spec(),
                out_len == self.output_len_spec(),
                1 <= in_len,
                1 <= out_len,
                input@.len() == in_len,
                out@ =~= resampled(input@, out_len as int).take(j as int),
            decreases out_len - j,
        {
            proof {
                lemma_mul_nonnegative(j as int, in_len as int);
                lemma_mul_inequality(j as int + 1, out_len as int, in_len as int);
                assert((j as int + 1) * (in_len as int) == j as int * in_len as int + in_len as int)
                    by (nonlinear_arith);
                assert((out_len as int) * (in_len as int) == (in_len as int) * (out_len as int))
                    by (nonlinear_arith);
                lemma_multiply_divide_lt(j as int * in_len as int, out_len as int, in_len as int);
                assert((j as int) * (in_len as int) <= 0xffff_ffff_ffff_ffff
                    * 0xffff_ffff_ffff_ffff) by (nonlinear_arith)
                    requires
                        0 <= j as int <= 0xffff_ffff_ffff_ffff,
                        0 <= in_len as int <= 0xffff_ffff_ffff_ffff,
                ;
            }
            let pos: u128 = ((j as u128) * (in_len as u128)) / (out_len as u128);
            let idx: usize = pos as usize;
            assert(idx == source_index(j as int, in_len as int, out_len as int));
            let s = input[idx];
            proof {
                assert(out@.push(s) =~= resampled(input@, out_len as int).take(j + 1));
            }
            out.push(s);
            j = j + 1;
        }
        proof {
            assert(out@ =~= resampled(input@, out_len as int));
        }
        out
    }
}

} // verus!
