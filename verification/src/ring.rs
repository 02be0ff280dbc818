//! Fixed-capacity single-producer/single-consumer ring buffer of samples.
//!
//! The buffer bridges the hardware callback and the conversion step: the
//! producer pushes one mono sample at a time and is never blocked — a push
//! against a full buffer drops the new sample and reports the overrun —
//! while the consumer drains whole conversion windows.  Capacity is fixed
//! at construction and no operation allocates afterwards.
//!
//! The view of a buffer is the sequence of occupied samples in FIFO order,
//! oldest first.

use vstd::prelude::*;

verus! {

/// Position of the `i`-th occupied sample in the backing storage, for a
/// buffer whose oldest sample sits at `head` in storage of length `cap`.
pub open spec fn ring_index(head: int, i: int, cap: int) -> int {
    if head + i < cap {
        head + i
    } else {
        head + i - cap
    }
}

/// One best-effort push at the model level: the sample is appended when
/// there is room and dropped otherwise.
pub open spec fn push_one(c: Seq<i32>, x: i32, cap: int) -> Seq<i32> {
    if c.len() < cap {
        c.push(x)
    } else {
        c
    }
}

/// Contents after best-effort pushes of `xs`, in order, onto contents `c`
/// of a buffer with capacity `cap`.
pub open spec fn after_pushes(c: Seq<i32>, xs: Seq<i32>, cap: int) -> Seq<i32>
    decreases xs.len(),
{
    if xs.len() == 0 {
        c
    } else {
        after_pushes(push_one(c, xs[0], cap), xs.skip(1), cap)
    }
}

pub struct RingBuffer {
    storage: Vec<i32>,
    /// Storage position of the oldest occupied sample.
    head: usize,
    /// Number of occupied samples.
    len: usize,
}

impl View for RingBuffer {
    type V = Seq<i32>;

    closed spec fn view(&self) -> Seq<i32> {
        Seq::new(
            self.len as nat,
            |i: int| self.storage@[ring_index(self.head as int, i, self.storage@.len() as int)],
        )
    }
}

impl RingBuffer {
    /// Number of samples the buffer can hold, fixed at construction.
    pub closed spec fn capacity_spec(&self) -> int {
        self.storage@.len() as int
    }

    pub closed spec fn wf(&self) -> bool {
        &&& 1 <= self.storage@.len()
        &&& (self.head as int) < self.storage@.len()
        &&& self.len <= self.storage@.len()
    }

    /// The occupied part never exceeds the capacity.
    pub proof fn lemma_occupied_bounded(&self)
        requires
            self.wf(),
        ensures
            self@.len() <= self.capacity_spec(),
    {
    }

    /// Creates an empty buffer that can hold `capacity` samples.
    pub fn new(capacity: usize) -> (r: RingBuffer)
        requires
            capacity >= 1,
        ensures
            r.wf(),
            r.capacity_spec() == capacity,
            r@ == Seq::<i32>::empty(),
    {
        let mut storage: Vec<i32> = Vec::new();
        let mut i: usize = 0;
        while i < capacity
            invariant
                i <= capacity,
                storage@.len() == i,
            decreases capacity - i,
        {
            storage.push(0);
            i = i + 1;
        }
        let r = RingBuffer { storage, head: 0, len: 0 };
        proof {
            assert(r@ =~= Seq::<i32>::empty());
        }
        r
    }

    /// Number of samples currently occupied.
    pub fn occupied_len(&self) -> (n: usize)
        ensures
            n == self@.len(),
    {
        self.len
    }

    /// Capacity fixed at construction.
    pub fn capacity(&self) -> (c: usize)
        ensures
            c == self.capacity_spec(),
    {
        self.storage.len()
    }

    /// Best-effort push: appends `sample` and returns `true` when there is
    /// room, returns `false` and leaves the buffer unchanged when it is
    /// full.  Never blocks and never allocates.
    pub fn push(&mut self, sample: i32) -> (accepted: bool)
        requires
            old(self).wf(),
        ensures
            final(self).wf(),
            final(self).capacity_spec() == old(self).capacity_spec(),
            accepted <==> old(self)@.len() < old(self).capacity_spec(),
            final(self)@ == push_one(old(self)@, sample, old(self).capacity_spec()),
    {
        let cap = self.storage.len();
        if self.len == cap {
            proof {
                assert(final(self)@ =~= push_one(old(self)@, sample, old(self).capacity_spec()));
            }
            false
        } else {
            let write_at = if self.head < cap - self.len {
                self.head + self.len
            } else {
                self.head - (cap - self.len)
            };
            assert(write_at as int == ring_index(self.head as int, self.len as int, cap as int));
            self.storage.set(write_at, sample);
            self.len = self.len + 1;
            proof {
                assert forall|i: int| 0 <= i < old(self)@.len() implies self@[i] == old(self)@[i] by {
                    assert(ring_index(self.head as int, i, cap as int)
                        != ring_index(self.head as int, old(self).len as int, cap as int));
                }
                assert(final(self)@ =~= push_one(old(self)@, sample, old(self).capacity_spec()));
            }
            true
        }
    }

    /// Copies up to `out.len()` samples into the front of `out` in FIFO
    /// order and removes them from the buffer; returns how many were
    /// copied.  The tail of `out` beyond the copied prefix is untouched.
    pub fn pop_into(&mut self, out: &mut Vec<i32>) -> (k: usize)
        requires
            old(self).wf(),
        ensures
            final(self).wf(),
            final(self).capacity_spec() == old(self).capacity_spec(),
            k == if old(out)@.len() <= old(self)@.len() {
                old(out)@.len()
            } else {
                old(self)@.len()
            },
            final(out)@.len() == old(out)@.len(),
            final(out)@ == old(self)@.take(k as int) + old(out)@.skip(k as int),
            final(self)@ == old(self)@.skip(k as int),
    {
        let cap = self.storage.len();
        let k = if out.len() <= self.len {
            out.len()
        } else {
            self.len
        };
        let mut i: usize = 0;
        while i < k
            invariant
                i <= k,
                k <= self.len,
                self.wf(),
                self == old(self),
                cap == self.storage@.len(),
                out@.len() == old(out)@.len(),
                k <= out@.len(),
                out@ =~= old(self)@.take(i as int) + old(out)@.skip(i as int),
            decreases k - i,
        {
            let read_at = if self.head < cap - i {
                self.head + i
            } else {
                self.head - (cap - i)
            };
            assert(read_at as int == ring_index(self.head as int, i as int, cap as int));
            out.set(i, self.storage[read_at]);
            proof {
                assert(out@ =~= old(self)@.take(i + 1) + old(out)@.skip(i + 1));
            }
            i = i + 1;
        }
        let new_head = if self.head < cap - k {
            self.head + k
        } else {
            self.head - (cap - k)
        };
        assert(new_head as int == ring_index(self.head as int, k as int, cap as int));
        self.head = new_head;
        self.len = self.len - k;
        proof {
            assert forall|j: int| 0 <= j < self@.len() implies self@[j] == old(self)@.skip(
                k as int,
            )[j] by {
                assert(ring_index(new_head as int, j, cap as int)
                    == ring_index(old(self).head as int, k + j, cap as int));
            }
            assert(final(self)@ =~= old(self)@.skip(k as int));
            assert(out@ =~= old(self)@.take(k as int) + old(out)@.skip(k as int));
        }
        k
    }

    /// Pushes a whole block of samples in order, each as a best-effort
    /// push; samples that arrive once the buffer is full are dropped.
    pub fn push_block(&mut self, samples: &Vec<i32>)
        requires
            old(self).wf(),
        ensures
            final(self).wf(),
            final(self).capacity_spec() == old(self).capacity_spec(),
            final(self)@ == after_pushes(old(self)@, samples@, old(self).capacity_spec()),
    {
        let n = samples.len();
        let mut i: usize = 0;
        while i < n
            invariant
                i <= n,
                n == samples@.len(),
                self.wf(),
                self.capacity_spec() == old(self).capacity_spec(),
                self@ == after_pushes(old(self)@, samples@.take(i as int), old(self).capacity_spec()),
            decreases n - i,
        {
            proof {
                lemma_after_pushes_snoc(old(self)@, samples@.take(i as int), samples@[i as int],
                    old(self).capacity_spec());
                assert(samples@.take(i + 1) =~= samples@.take(i as int).push(samples@[i as int]));
            }
            self.push(samples[i]);
            i = i + 1;
        }
        proof {
            assert(samples@.take(n as int) =~= samples@);
        }
    }
}

/// Appending one more push to a model push sequence is one more
/// best-effort push on the result.
pub proof fn lemma_after_pushes_snoc(c: Seq<i32>, xs: Seq<i32>, x: i32, cap: int)
    ensures
        after_pushes(c, xs.push(x), cap) == push_one(after_pushes(c, xs, cap), x, cap),
    decreases xs.len(),
{
    if xs.len() == 0 {
        assert(xs.push(x)[0] == x);
        assert(xs.push(x).skip(1) =~= Seq::<i32>::empty());
        assert(after_pushes(push_one(c, x, cap), Seq::<i32>::empty(), cap) == push_one(c, x, cap));
        assert(after_pushes(c, xs.push(x), cap) == after_pushes(
            push_one(c, x, cap),
            xs.push(x).skip(1),
            cap,
        ));
    } else {
        assert(xs.push(x)[0] == xs[0]);
        assert(xs.push(x).skip(1) =~= xs.skip(1).push(x));
        lemma_after_pushes_snoc(push_one(c, xs[0], cap), xs.skip(1), x, cap);
    }
}

/// Overrun law: best-effort pushes keep the oldest samples and drop the
/// newest, and the occupied length never exceeds the capacity.
pub proof fn lemma_after_pushes_drops_newest(c: Seq<i32>, xs: Seq<i32>, cap: int)
    requires
        c.len() <= cap,
    ensures
        after_pushes(c, xs, cap) == c + xs.take(
            if xs.len() <= cap - c.len() {
                xs.len() as int
            } else {
                cap - c.len()
            },
        ),
        after_pushes(c, xs, cap).len() <= cap,
    decreases xs.len(),
{
    if xs.len() == 0 {
        assert(after_pushes(c, xs, cap) =~= c + xs.take(0));
    } else {
        lemma_after_pushes_drops_newest(push_one(c, xs[0], cap), xs.skip(1), cap);
        let keep: int = if xs.len() <= cap - c.len() {
            xs.len() as int
        } else {
            cap - c.len()
        };
        if c.len() < cap {
            let keep_rest: int = if xs.skip(1).len() <= cap - c.len() - 1 {
                xs.skip(1).len() as int
            } else {
                cap - c.len() - 1
            };
            assert(c.push(xs[0]) + xs.skip(1).take(keep_rest) =~= c + xs.take(keep));
        } else {
            assert(c + xs.skip(1).take(0) =~= c + xs.take(keep));
        }
    }
}

/// FIFO law: a run of pushes that fits within the capacity keeps every
/// sample in push order, so a pop of the first `m` samples returns exactly
/// the samples pushed first and leaves the later `n - m`, in order,
/// occupied.
pub proof fn lemma_ring_fifo(xs: Seq<i32>, cap: int, m: int)
    requires
        xs.len() <= cap,
        0 <= m <= xs.len(),
    ensures
        after_pushes(Seq::<i32>::empty(), xs, cap) == xs,
        xs.take(m) + xs.skip(m) == xs,
        xs.skip(m).len() == xs.len() - m,
{
    lemma_after_pushes_drops_newest(Seq::<i32>::empty(), xs, cap);
    assert(Seq::<i32>::empty() + xs.take(xs.len() as int) =~= xs);
    assert(xs.take(m) + xs.skip(m) =~= xs);
}

} // verus!
