//! Frame sizing and tail bookkeeping of FFT overlap-add convolution.
//!
//! A block of at most `block_size` samples is convolved with an M-tap filter
//! in one FFT frame of N samples, N the smallest power of two not below
//! `block_size + M - 1`; the last M - 1 samples of each frame's linear
//! convolution are carried to the start of the next block.
use vstd::prelude::*;

verus! {

/// The first power of two reached from `n` by doubling that is at least `need`.
pub open spec fn doubled_until(need: nat, n: nat) -> nat
    decreases (if n >= need {
        0
    } else {
        need - n
    }),
    when n >= 1
{
    if n >= need {
        n
    } else {
        doubled_until(need, 2 * n)
    }
}

/// The smallest power of two not below `need`.
pub open spec fn next_pow2(need: nat) -> nat {
    doubled_until(need, 1)
}

pub open spec fn is_pow2(n: nat) -> bool
    decreases n,
{
    if n <= 1 {
        n == 1
    } else {
        n % 2 == 0 && is_pow2(n / 2)
    }
}

/// The frame size for blocks of `block_size` samples and `taps` taps.
pub open spec fn frame_size_spec(block_size: nat, taps: nat) -> nat {
    next_pow2((block_size + taps - 1) as nat)
}

proof fn lemma_doubled_until(need: nat, n: nat)
    requires
        n >= 1,
        is_pow2(n),
        n <= need || n == 1,
    ensures
        is_pow2(doubled_until(need, n)),
        doubled_until(need, n) >= need,
        doubled_until(need, n) == n || doubled_until(need, n) < 2 * need,
    decreases need - n,
{
    if n < need {
        assert(is_pow2(2 * n)) by {
            assert((2 * n) / 2 == n);
        }
        if 2 * n <= need {
            lemma_doubled_until(need, 2 * n);
        } else {
            assert(doubled_until(2 * n, 2 * n) == 2 * n);
            assert(doubled_until(need, 2 * n) == 2 * n);
        }
    }
}

/// The smallest power of two that is at least `need` (1 for 0).
pub fn next_power_of_two(need: usize) -> (n: usize)
    requires
        need <= usize::MAX / 2 + 1,
    ensures
        n == next_pow2(need as nat),
        is_pow2(n as nat),
        n >= need,
        n == 1 || n < 2 * need,
{
    proof {
        lemma_doubled_until(need as nat, 1);
    }
    let mut n: usize = 1;
    while n < need
        invariant
            n >= 1,
            need <= usize::MAX / 2 + 1,
            doubled_until(need as nat, n as nat) == next_pow2(need as nat),
        decreases (if n >= need {
            0
        } else {
            need - n
        }),
    {
        n = n * 2;
    }
    n
}

/// The FFT frame size for blocks of `block_size` samples and a filter of
/// `taps` taps.
pub fn frame_size(block_size: usize, taps: usize) -> (n: usize)
    requires
        taps > 0,
        block_size + taps - 1 <= usize::MAX / 2 + 1,
    ensures
        n == frame_size_spec(block_size as nat, taps as nat),
        is_pow2(n as nat),
        n >= block_size + taps - 1,
{
    next_power_of_two(block_size + taps - 1)
}

/// Whatever the length of the block handed over (shorter than the filter,
/// empty, or longer than the block size), the samples taken from it and the
/// M - 1 tail samples fit in one frame: the convolution never wraps around
/// and no index leaves the frame.
pub proof fn lemma_block_fits_frame(block_size: nat, taps: nat, input_len: nat)
    requires
        taps > 0,
    ensures
        vstd::math::min(input_len as int, block_size as int) + taps - 1 <= frame_size_spec(
            block_size,
            taps,
        ),
{
    let need = (block_size + taps - 1) as nat;
    assert(is_pow2(1nat));
    if need >= 1 {
        lemma_doubled_until(need, 1);
    } else {
        assert(doubled_until(need, 1) == 1);
    }
}

/// Overlap-add state: the carried tail and the sizes it depends on.
pub struct OverlapAdd<T> {
    tail: Vec<T>,
    block_size: usize,
    taps: usize,
    frame: usize,
}

impl<T: Copy> OverlapAdd<T> {
    /// The carried tail, M - 1 samples.
    pub closed spec fn tail_spec(&self) -> Seq<T> {
        self.tail@
    }

    pub closed spec fn block_size_spec(&self) -> nat {
        self.block_size as nat
    }

    pub closed spec fn taps_spec(&self) -> nat {
        self.taps as nat
    }

    pub closed spec fn frame_spec(&self) -> nat {
        self.frame as nat
    }

    pub closed spec fn wf(&self) -> bool {
        &&& self.taps > 0
        &&& self.tail@.len() == self.taps - 1
        &&& self.frame == frame_size_spec(self.block_size as nat, self.taps as nat)
        &&& self.frame >= self.block_size + self.taps - 1
    }

    /// State for blocks of up to `block_size` samples and `taps` taps, with
    /// a tail of `zero`s.
    pub fn new(block_size: usize, taps: usize, zero: T) -> (r: Self)
        requires
            taps > 0,
            block_size + taps - 1 <= usize::MAX / 2 + 1,
        ensures
            r.wf(),
            r.block_size_spec() == block_size,
            r.taps_spec() == taps,
            r.frame_spec() == frame_size_spec(block_size as nat, taps as nat),
            is_pow2(r.frame_spec()),
            r.frame_spec() >= block_size + taps - 1,
            r.tail_spec() == Seq::new((taps - 1) as nat, |i: int| zero),
    {
        let frame = frame_size(block_size, taps);
        let mut tail: Vec<T> = Vec::new();
        let mut i: usize = 0;
        while i < taps - 1
            invariant
                i <= taps - 1,
                tail@ == Seq::new(i as nat, |k: int| zero),
            decreases taps - 1 - i,
        {
            tail.push(zero);
            i = i + 1;
        }
        proof {
            assert(is_pow2(frame as nat));
        }
        OverlapAdd { tail, block_size, taps, frame }
    }

    /// The FFT frame size N: the smallest power of two not below
    /// block_size + M − 1.
    pub fn fft_size(&self) -> (n: usize)
        requires
            self.wf(),
        ensures
            n == self.frame_spec(),
            n == frame_size_spec(self.block_size_spec(), self.taps_spec()),
    {
        self.frame
    }

    /// The block size.
    pub fn block_size(&self) -> (n: usize)
        requires
            self.wf(),
        ensures
            n == self.block_size_spec(),
    {
        self.block_size
    }

    /// The filter length M.
    pub fn filter_length(&self) -> (n: usize)
        requires
            self.wf(),
        ensures
            n == self.taps_spec(),
    {
        self.taps
    }

    /// How many samples of an input of `input_len` samples one block takes:
    /// min(input_len, block_size).
    pub fn block_len(&self, input_len: usize) -> (n: usize)
        requires
            self.wf(),
        ensures
            n == vstd::math::min(input_len as int, self.block_size_spec() as int),
            n + self.taps_spec() - 1 <= self.frame_spec(),
    {
        if input_len < self.block_size {
            input_len
        } else {
            self.block_size
        }
    }

    /// The `i`-th carried sample, added to output sample `i` of the next block.
    pub fn tail_at(&self, i: usize) -> (x: T)
        requires
            self.wf(),
            i < self.tail_spec().len(),
        ensures
            x == self.tail_spec()[i as int],
    {
        self.tail[i]
    }

    /// Adds the carried tail into the first M - 1 samples of a block's
    /// (scaled) frame with `combine`, the sample addition; the rest of the frame
    /// is unchanged. The frame then holds the overlap-added output in
    /// [0, n) and the next tail in [n, n + M - 1), including what the old
    /// tail held beyond a block shorter than it.
    pub fn add_tail<F: Fn(T, T) -> T>(&self, frame: &mut Vec<T>, combine: F)
        requires
            self.wf(),
            old(frame)@.len() == self.frame_spec(),
            forall|a: T, b: T| combine.requires((a, b)),
        ensures
            final(frame)@.len() == old(frame)@.len(),
            forall|j: int|
                0 <= j < self.tail_spec().len() ==> combine.ensures(
                    (old(frame)@[j], self.tail_spec()[j]),
                    #[trigger] final(frame)@[j],
                ),
            forall|j: int|
                self.tail_spec().len() <= j < old(frame)@.len() ==> #[trigger] final(frame)@[j]
                    == old(frame)@[j],
    {
        let m1 = self.taps - 1;
        let mut i: usize = 0;
        while i < m1
            invariant
                m1 == self.tail@.len(),
                self.wf(),
                frame@.len() == old(frame)@.len(),
                old(frame)@.len() == self.frame,
                forall|a: T, b: T| combine.requires((a, b)),
                i <= m1,
                forall|j: int|
                    0 <= j < i ==> combine.ensures((old(frame)@[j], self.tail@[j]), #[trigger] frame@[j]),
                forall|j: int| i <= j < frame@.len() ==> #[trigger] frame@[j] == old(frame)@[j],
            decreases m1 - i,
        {
            let sum = combine(frame[i], self.tail[i]);
            frame.set(i, sum);
            i = i + 1;
        }
    }

    /// After a block of `n` samples whose frame, with the old tail added in
    /// by `add_tail`, is `frame`, keeps frame samples [n, n + M - 1) as the
    /// tail for the next block.
    pub fn carry_tail(&mut self, frame: &[T], n: usize)
        requires
            old(self).wf(),
            frame@.len() == old(self).frame_spec(),
            n <= old(self).block_size_spec(),
        ensures
            final(self).wf(),
            final(self).tail_spec() == frame@.subrange(n as int, n + old(self).taps_spec() - 1),
            final(self).block_size_spec() == old(self).block_size_spec(),
            final(self).taps_spec() == old(self).taps_spec(),
            final(self).frame_spec() == old(self).frame_spec(),
    {
        let m1 = self.taps - 1;
        let mut i: usize = 0;
        while i < m1
            invariant
                m1 == self.taps - 1,
                self.wf(),
                frame@.len() == self.frame,
                n <= self.block_size,
                self.block_size == old(self).block_size,
                self.taps == old(self).taps,
                self.frame == old(self).frame,
                i <= m1,
                forall|k: int| 0 <= k < i ==> self.tail@[k] == frame@[n + k],
            decreases m1 - i,
        {
            self.tail.set(i, frame[n + i]);
            i = i + 1;
        }
        assert(self.tail@ =~= frame@.subrange(n as int, n + m1));
    }

    /// Clears the tail to `zero`s; the sizes stay.
    pub fn reset(&mut self, zero: T)
        requires
            old(self).wf(),
        ensures
            final(self).wf(),
            final(self).tail_spec() == Seq::new(old(self).tail_spec().len(), |i: int| zero),
            final(self).block_size_spec() == old(self).block_size_spec(),
            final(self).taps_spec() == old(self).taps_spec(),
            final(self).frame_spec() == old(self).frame_spec(),
    {
        let m1 = self.taps - 1;
        let mut i: usize = 0;
        while i < m1
            invariant
                m1 == self.taps - 1,
                self.wf(),
                self.block_size == old(self).block_size,
                self.taps == old(self).taps,
                self.frame == old(self).frame,
                i <= m1,
                forall|k: int| 0 <= k < i ==> self.tail@[k] == zero,
            decreases m1 - i,
        {
            self.tail.set(i, zero);
            i = i + 1;
        }
        assert(self.tail@ =~= Seq::new(m1 as nat, |k: int| zero));
    }
}

} // verus!
