//! The circular delay line of a direct-convolution FIR filter: the last M
//! input samples, written at a cursor that wraps around, with no allocation
//! per sample.
use vstd::prelude::*;

verus! {

/// The history after pushing `xs` one by one into a line holding `h`.
pub open spec fn push_all<T>(h: Seq<T>, xs: Seq<T>) -> Seq<T>
    decreases xs.len(),
{
    if xs.len() == 0 {
        h
    } else {
        push_all(h.skip(1).push(xs[0]), xs.skip(1))
    }
}

/// After any run of pushes a delay line holds exactly the last M samples of
/// its earlier history followed by the pushed ones, so `tap(k)` is the input
/// from k samples back (or an earlier history value while fewer than M
/// samples have been pushed).
pub proof fn lemma_push_all_keeps_last<T>(h: Seq<T>, xs: Seq<T>)
    requires
        h.len() > 0,
    ensures
        push_all(h, xs) == (h + xs).skip(xs.len() as int),
        push_all(h, xs).len() == h.len(),
    decreases xs.len(),
{
    if xs.len() > 0 {
        let h1 = h.skip(1).push(xs[0]);
        lemma_push_all_keeps_last(h1, xs.skip(1));
        assert(h1 + xs.skip(1) =~= (h + xs).skip(1));
        assert((h1 + xs.skip(1)).skip(xs.len() - 1) =~= (h + xs).skip(xs.len() as int));
    } else {
        assert((h + xs).skip(0) =~= h);
    }
}

/// Delay line of fixed length M over samples of type `T`.
pub struct DelayLine<T> {
    buffer: Vec<T>,
    cursor: usize,
}

impl<T: Copy> DelayLine<T> {
    /// Buffer position of the `j`-th oldest sample (0 = oldest): the cursor
    /// marks the slot written next, which holds the oldest sample.
    closed spec fn slot(&self, j: int) -> int {
        if self.cursor + j < self.buffer@.len() {
            self.cursor + j
        } else {
            self.cursor + j - self.buffer@.len()
        }
    }

    /// The M samples held, oldest first.
    pub closed spec fn history(&self) -> Seq<T> {
        Seq::new(self.buffer@.len(), |j: int| self.buffer@[self.slot(j)])
    }

    /// The cursor position (the slot written next).
    pub closed spec fn cursor_spec(&self) -> nat {
        self.cursor as nat
    }

    pub closed spec fn wf(&self) -> bool {
        &&& self.buffer@.len() > 0
        &&& self.cursor < self.buffer@.len()
    }

    /// A delay line of `length` slots, each holding `fill`.
    pub fn new(length: usize, fill: T) -> (r: Self)
        requires
            length > 0,
        ensures
            r.wf(),
            r.history() == Seq::new(length as nat, |i: int| fill),
            r.cursor_spec() == 0,
    {
        let mut buffer: Vec<T> = Vec::new();
        let mut i: usize = 0;
        while i < length
            invariant
                i <= length,
                buffer@ == Seq::new(i as nat, |k: int| fill),
            decreases length - i,
        {
            buffer.push(fill);
            i = i + 1;
        }
        let r = DelayLine { buffer, cursor: 0 };
        assert(r.history() =~= Seq::new(length as nat, |k: int| fill));
        r
    }

    /// The length M.
    pub fn length(&self) -> (m: usize)
        requires
            self.wf(),
        ensures
            m == self.history().len(),
    {
        self.buffer.len()
    }

    /// Shifts `x` in: the oldest sample leaves and `x` becomes the newest.
    pub fn push(&mut self, x: T)
        requires
            old(self).wf(),
        ensures
            final(self).wf(),
            final(self).history() == old(self).history().skip(1).push(x),
    {
        let ghost before = self.history();
        let m = self.buffer.len();
        let c = self.cursor;
        self.buffer.set(c, x);
        self.cursor = if c + 1 == m {
            0
        } else {
            c + 1
        };
        assert(self.history() =~= before.skip(1).push(x));
    }

    /// The sample pushed `k` steps ago (0 = the newest).
    pub fn tap(&self, k: usize) -> (x: T)
        requires
            self.wf(),
            k < self.history().len(),
        ensures
            x == self.history()[self.history().len() - 1 - k],
    {
        let m = self.buffer.len();
        let j = m - 1 - k;
        let i = if j < m - self.cursor {
            self.cursor + j
        } else {
            j - (m - self.cursor)
        };
        self.buffer[i]
    }

    /// Sets every slot to `fill`; the cursor stays where it is.
    pub fn reset(&mut self, fill: T)
        requires
            old(self).wf(),
        ensures
            final(self).wf(),
            final(self).history() == Seq::new(old(self).history().len(), |i: int| fill),
            final(self).cursor_spec() == old(self).cursor_spec(),
    {
        let m = self.buffer.len();
        let mut i: usize = 0;
        while i < m
            invariant
                i <= m,
                m == self.buffer@.len(),
                m > 0,
                self.cursor < m,
                self.cursor == old(self).cursor,
                forall|k: int| 0 <= k < i ==> self.buffer@[k] == fill,
            decreases m - i,
        {
            self.buffer.set(i, fill);
            i = i + 1;
        }
        assert(self.history() =~= Seq::new(m as nat, |k: int| fill));
    }

    /// Changes the length to `length`. A different length replaces the
    /// history by `length` copies of `fill` with the cursor at 0; the same
    /// length keeps everything.
    pub fn set_length(&mut self, length: usize, fill: T)
        requires
            old(self).wf(),
            length > 0,
        ensures
            final(self).wf(),
            length == old(self).history().len() ==> *final(self) == *old(self),
            length != old(self).history().len() ==> final(self).history() == Seq::new(
                length as nat,
                |i: int| fill,
            ) && final(self).cursor_spec() == 0,
    {
        if length != self.buffer.len() {
            *self = DelayLine::new(length, fill);
        }
    }
}

} // verus!
