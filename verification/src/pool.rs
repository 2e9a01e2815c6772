use vstd::prelude::*;

verus! {

/// Size, in pixels, of a freshly created shared-memory pool (128 bytes).
pub const INITIAL_POOL_PIXELS: usize = 32;

/// `mem` cut or zero-extended to exactly `n` pixels, as `set_len` does to a file.
pub open spec fn zero_fitted(mem: Seq<u32>, n: nat) -> Seq<u32> {
    Seq::new(n, |i: int| if i < mem.len() { mem[i] } else { 0u32 })
}

/// The memory of a pool of announced size `size` after it is asked to grow to `n` pixels.
pub open spec fn grown(mem: Seq<u32>, size: nat, n: nat) -> Seq<u32> {
    if n > size {
        zero_fitted(mem, n)
    } else {
        mem
    }
}

/// The announced size of a pool of size `size` after it is asked to grow to `n` pixels.
pub open spec fn grown_size(size: nat, n: nat) -> nat {
    if n > size {
        n
    } else {
        size
    }
}

/// `mem` after one pixel `v` is written at position `pos`: a write past the end extends
/// the memory, and the gap it leaves reads as zero.
pub open spec fn with_pixel(mem: Seq<u32>, pos: int, v: u32) -> Seq<u32> {
    Seq::new(
        if pos < mem.len() { mem.len() } else { (pos + 1) as nat },
        |i: int| if i == pos { v } else if i < mem.len() { mem[i] } else { 0u32 },
    )
}

/// `mem` after `reps` pixels of `color` are written one after the other from `pos` on.
pub open spec fn filled(mem: Seq<u32>, pos: int, reps: int, color: u32) -> Seq<u32> {
    Seq::new(
        if reps > 0 && pos + reps > mem.len() { (pos + reps) as nat } else { mem.len() },
        |i: int|
            if pos <= i < pos + reps {
                color
            } else if i < mem.len() {
                mem[i]
            } else {
                0u32
            },
    )
}

/// `mem` after the pixels `vals` are written one after the other from `start` on.
pub open spec fn written_run(mem: Seq<u32>, start: int, vals: Seq<u32>) -> Seq<u32> {
    Seq::new(
        if vals.len() > 0 && start + vals.len() > mem.len() {
            (start + vals.len()) as nat
        } else {
            mem.len()
        },
        |i: int|
            if start <= i < start + vals.len() {
                vals[i - start]
            } else if i < mem.len() {
                mem[i]
            } else {
                0u32
            },
    )
}

/// The shared memory behind the window's pixels: the content of the backing file, one
/// `u32` per pixel, and the size that the compositor has been told about.
pub struct Pool {
    mem: Vec<u32>,
    len: usize,
}

impl Pool {
    /// The content of the backing memory, pixel by pixel.
    pub closed spec fn content(&self) -> Seq<u32> {
        self.mem@
    }

    /// The size of the pool as the compositor sees it, in pixels.
    pub closed spec fn size(&self) -> nat {
        self.len as nat
    }

    /// The backing memory always holds at least the announced size.
    pub closed spec fn wf(&self) -> bool {
        self.mem@.len() >= self.len
    }

    /// A fresh pool: `INITIAL_POOL_PIXELS` zero pixels.
    pub fn new() -> (p: Pool)
        ensures
            p.wf(),
            p.size() == INITIAL_POOL_PIXELS,
            p.content() == Seq::new(INITIAL_POOL_PIXELS as nat, |i: int| 0u32),
    {
        let mut mem: Vec<u32> = Vec::new();
        let mut i: usize = 0;
        while i < INITIAL_POOL_PIXELS
            invariant
                i <= INITIAL_POOL_PIXELS,
                mem@ == Seq::new(i as nat, |k: int| 0u32),
            decreases INITIAL_POOL_PIXELS - i,
        {
            mem.push(0u32);
            i = i + 1;
        }
        Pool { mem, len: INITIAL_POOL_PIXELS }
    }

    /// Pixel `i` of the backing memory.
    pub fn pixel(&self, i: usize) -> (v: u32)
        requires
            i < self.content().len(),
        ensures
            v == self.content()[i as int],
    {
        self.mem[i]
    }

    /// Number of pixels in the backing memory.
    pub fn memory_len(&self) -> (n: usize)
        ensures
            n == self.content().len(),
    {
        self.mem.len()
    }

    /// Pools only grow: to a larger size the backing memory is cut or zero-extended to
    /// exactly that size; a size that is not larger changes nothing.
    pub fn resize(&mut self, newsize: usize)
        requires
            old(self).wf(),
        ensures
            final(self).wf(),
            newsize > old(self).size() ==> final(self).size() == newsize && final(self).content()
                == zero_fitted(old(self).content(), newsize as nat),
            newsize <= old(self).size() ==> *final(self) == *old(self),
    {
        if newsize > self.len {
            let ghost before = self.mem@;
            if self.mem.len() >= newsize {
                self.mem.truncate(newsize);
            } else {
                while self.mem.len() < newsize
                    invariant
                        self.mem@.len() <= newsize,
                        self.mem@.len() >= before.len(),
                        forall|i: int| 0 <= i < self.mem@.len() ==> #[trigger] self.mem@[i] == (
                        if i < before.len() {
                            before[i]
                        } else {
                            0u32
                        }),
                    decreases newsize - self.mem@.len(),
                {
                    self.mem.push(0u32);
                }
            }
            self.len = newsize;
            assert(self.mem@ =~= zero_fitted(before, newsize as nat));
        }
    }

    /// Writes one pixel at `pos`, extending the memory with zeros where `pos` lies past
    /// its end.
    pub fn put(&mut self, pos: usize, v: u32)
        requires
            old(self).wf(),
            pos < usize::MAX,
        ensures
            final(self).wf(),
            final(self).size() == old(self).size(),
            final(self).content() == with_pixel(old(self).content(), pos as int, v),
    {
        let ghost before = self.mem@;
        assert(before.len() >= self.len);
        if pos < self.mem.len() {
            self.mem.set(pos, v);
        } else {
            while self.mem.len() < pos
                invariant
                    self.mem@.len() <= pos,
                    self.mem@.len() >= before.len(),
                    self.len == old(self).len,
                    before.len() >= self.len,
                    forall|i: int| 0 <= i < self.mem@.len() ==> #[trigger] self.mem@[i] == (if i
                        < before.len() {
                        before[i]
                    } else {
                        0u32
                    }),
                decreases pos - self.mem@.len(),
            {
                self.mem.push(0u32);
            }
            self.mem.push(v);
        }
        assert(self.mem@ =~= with_pixel(before, pos as int, v));
    }

    /// Writes `reps` pixels of `color` one after the other from `pos` on.
    pub fn fill(&mut self, pos: usize, reps: usize, color: u32)
        requires
            old(self).wf(),
            pos + reps < usize::MAX,
        ensures
            final(self).wf(),
            final(self).size() == old(self).size(),
            final(self).content() == filled(old(self).content(), pos as int, reps as int, color),
    {
        let ghost before = self.content();
        let mut k: usize = 0;
        assert(self.content() =~= filled(before, pos as int, 0, color));
        while k < reps
            invariant
                self.wf(),
                self.size() == old(self).size(),
                k <= reps,
                pos + reps < usize::MAX,
                self.content() == filled(before, pos as int, k as int, color),
            decreases reps - k,
        {
            self.put(pos + k, color);
            assert(self.content() =~= filled(before, pos as int, (k + 1) as int, color));
            k = k + 1;
        }
    }

    /// Writes the pixels `vals` one after the other from `start` on.
    pub fn write_run(&mut self, start: usize, vals: &Vec<u32>)
        requires
            old(self).wf(),
            start + vals@.len() < usize::MAX,
        ensures
            final(self).wf(),
            final(self).size() == old(self).size(),
            final(self).content() == written_run(old(self).content(), start as int, vals@),
    {
        let ghost before = self.content();
        let mut k: usize = 0;
        assert(self.content() =~= written_run(before, start as int, vals@.take(0)));
        while k < vals.len()
            invariant
                self.wf(),
                self.size() == old(self).size(),
                k <= vals@.len(),
                start + vals@.len() < usize::MAX,
                self.content() == written_run(before, start as int, vals@.take(k as int)),
            decreases vals@.len() - k,
        {
            self.put(start + k, vals[k]);
            assert(self.content() =~= written_run(before, start as int, vals@.take((k + 1) as int)));
            k = k + 1;
        }
        assert(vals@.take(vals@.len() as int) =~= vals@);
    }
}

} // verus!
