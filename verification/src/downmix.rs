//! Downmixing of interleaved multi-channel frames to mono.
//!
//! A frame is `channels` consecutive samples, one per channel.  Its mono
//! sample is the arithmetic mean of the frame, with the quotient truncated
//! toward zero, so a frame of one repeated value averages to exactly that
//! value and silence maps to silence.  A delivered buffer is downmixed
//! frame by frame; a trailing partial frame, which a well-behaved device
//! never delivers, is dropped.

use vstd::prelude::*;
use vstd::arithmetic::div_mod::{
    lemma_div_is_ordered,
    lemma_div_multiples_vanish,
    lemma_fundamental_div_mod,
    lemma_mod_bound,
};
use vstd::arithmetic::mul::{lemma_mul_inequality, lemma_mul_nonnegative};

verus! {

/// Sum of a sequence of samples.
pub open spec fn sum_seq(s: Seq<i32>) -> int
    decreases s.len(),
{
    if s.len() == 0 {
        0
    } else {
        sum_seq(s.drop_last()) + s.last()
    }
}

/// Quotient of `sum / n` truncated toward zero, the rounding the mean of a
/// frame uses.
pub open spec fn mean_trunc(sum: int, n: int) -> int {
    if sum >= 0 {
        sum / n
    } else {
        -((-sum) / n)
    }
}

/// The mono sample of frame `j` of an interleaved buffer.
pub open spec fn frame_mean(s: Seq<i32>, channels: int, j: int) -> int {
    mean_trunc(sum_seq(s.subrange(j * channels, (j + 1) * channels)), channels)
}

/// The mono sequence a whole interleaved buffer downmixes to: one mean per
/// complete frame.
pub open spec fn downmixed(s: Seq<i32>, channels: int) -> Seq<i32> {
    Seq::new((s.len() as int / channels) as nat, |j: int| frame_mean(s, channels, j) as i32)
}

/// Sum of a constant frame is the value times the frame length.
proof fn lemma_sum_constant(v: i32, n: nat)
    ensures
        sum_seq(Seq::new(n, |i: int| v)) == n * v,
    decreases n,
{
    let s = Seq::new(n, |i: int| v);
    if n == 0 {
    } else {
        assert(s.drop_last() =~= Seq::new((n - 1) as nat, |i: int| v));
        lemma_sum_constant(v, (n - 1) as nat);
        assert(n * v == (n - 1) * v + v) by (nonlinear_arith);
    }
}

/// Downmix law: a frame of one repeated value `v` across any number of
/// channels averages to exactly `v`.
pub proof fn lemma_downmix_identical(v: i32, channels: int)
    requires
        1 <= channels,
    ensures
        mean_trunc(sum_seq(Seq::new(channels as nat, |i: int| v)), channels) == v,
{
    lemma_sum_constant(v, channels as nat);
    let sum = channels * v;
    if v >= 0 {
        lemma_mul_nonnegative(channels, v as int);
        lemma_div_multiples_vanish(v as int, channels);
    } else {
        assert(sum < 0) by (nonlinear_arith)
            requires
                1 <= channels && v < 0 && sum == channels * v,
        ;
        assert(-sum == channels * (-v) as int) by (nonlinear_arith)
            requires
                sum == channels * v,
        ;
        lemma_div_multiples_vanish(-(v as int), channels);
    }
}

/// Computes the mono mean of the frame `input[start .. start + channels]`.
pub fn downmix_frame(input: &Vec<i32>, start: usize, channels: u32) -> (m: i32)
    requires
        1 <= channels,
        start + channels <= input@.len(),
    ensures
        m as int == mean_trunc(
            sum_seq(input@.subrange(start as int, start as int + channels as int)),
            channels as int,
        ),
{
    let ch: usize = channels as usize;
    let n: usize = input.len();
    let mut acc: i64 = 0;
    let mut i: usize = 0;
    while i < ch
        invariant
            i <= ch,
            ch == channels,
            1 <= channels,
            n == input@.len(),
            start + ch <= n,
            acc == sum_seq(input@.subrange(start as int, start as int + i as int)),
            -2147483648 * (i as int) <= acc <= 2147483647 * (i as int),
        decreases ch - i,
    {
        let s = input[start + i];
        proof {
            let pre = input@.subrange(start as int, start as int + i as int);
            let post = input@.subrange(start as int, start as int + i + 1);
            assert(post.drop_last() =~= pre);
            assert(post.last() == input@[start as int + i as int]);
        }
        acc = acc + s as i64;
        i = i + 1;
    }
    let mean: i64 = if acc >= 0 {
        proof {
            lemma_div_is_ordered(acc as int, 2147483647 * (ch as int), ch as int);
            lemma_div_multiples_vanish(2147483647, ch as int);
        }
        ((acc as u64) / (channels as u64)) as i64
    } else {
        proof {
            lemma_div_is_ordered(-(acc as int), 2147483648 * (ch as int), ch as int);
            lemma_div_multiples_vanish(2147483648, ch as int);
        }
        -((((-acc) as u64) / (channels as u64)) as i64)
    };
    proof {
        assert(mean == mean_trunc(acc as int, channels as int));
        assert(-2147483648 <= mean <= 2147483647);
    }
    mean as i32
}

/// Downmixes a whole interleaved buffer: one mono sample per complete
/// frame of `channels` samples, in delivery order.
pub fn downmix_block(input: &Vec<i32>, channels: u32) -> (out: Vec<i32>)
    requires
        1 <= channels,
    ensures
        out@ == downmixed(input@, channels as int),
{
    let ch: usize = channels as usize;
    let n: usize = input.len();
    let n_frames: usize = n / ch;
    proof {
        lemma_fundamental_div_mod(n as int, ch as int);
        lemma_mod_bound(n as int, ch as int);
        assert((ch as int) * (n_frames as int) == (n_frames as int) * (ch as int))
            by (nonlinear_arith);
    }
    let mut out: Vec<i32> = Vec::new();
    let mut j: usize = 0;
    let mut start: usize = 0;
    while j < n_frames
        invariant
            j <= n_frames,
            ch == channels,
            1 <= channels,
            n == input@.len(),
            n_frames == n as int / ch as int,
            (n_frames as int) * (ch as int) <= n,
            start == j * ch,
            out@ =~= downmixed(input@, channels as int).take(j as int),
        decreases n_frames - j,
    {
        proof {
            lemma_mul_inequality(j as int + 1, n_frames as int, ch as int);
            assert((j + 1) * (ch as int) == j * ch + ch) by (nonlinear_arith);
        }
        let m = downmix_frame(input, start, channels);
        proof {
            let d = downmixed(input@, channels as int);
            assert(d[j as int] == frame_mean(input@, channels as int, j as int) as i32);
            assert(out@.push(m) =~= d.take(j + 1));
        }
        out.push(m);
        start = start + ch;
        j = j + 1;
    }
    proof {
        assert(out@ =~= downmixed(input@, channels as int));
    }
    out
}

} // verus!
