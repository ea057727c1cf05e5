//! Collision aggregation: a ring of readback slots decouples the GPU's copy of
//! the per-pixel collision texture from the CPU's read of it, and a bitwise-OR
//! reduction folds each mapped texture row into one bitmask per scan line.
use vstd::prelude::*;

use vstd::arithmetic::div_mod::lemma_mod_add_multiples_vanish;
use vstd::arithmetic::div_mod::lemma_mod_self_0;
use vstd::arithmetic::div_mod::lemma_small_mod;

verus! {

/// Number of scan lines with a collision aggregate entry.
pub const COLLISIONS_SCAN_LINES: usize = 240;

/// Number of 64-bit words per texture row in a mapped readback slot.
pub const COLLISIONS_ROW_STRIDE: usize = 256;

/// Number of slots in the readback ring.
pub const COLLISIONS_RING_SIZE: usize = 4;

/// The word at column `x` of row `y` in a mapped readback slot.
pub open spec fn collision_sample(words: Seq<u64>, y: int, x: int) -> u64 {
    words[y * (COLLISIONS_ROW_STRIDE as int) + x]
}

/// Bitwise OR of the words at column `x` over the first `rows` texture rows:
/// row 0 initializes the accumulator and each further row ORs into it.
pub open spec fn row_fold(words: Seq<u64>, rows: nat, x: int) -> u64
    recommends
        1 <= rows,
        0 <= x < COLLISIONS_ROW_STRIDE,
        words.len() >= rows * COLLISIONS_ROW_STRIDE,
    decreases rows,
{
    if rows <= 1 {
        collision_sample(words, 0, x)
    } else {
        row_fold(words, (rows - 1) as nat, x) | collision_sample(words, rows - 1, x)
    }
}

/// Collision readback state: the per-scan-line aggregate and the rotating
/// index of the ring slot that receives the current frame's copy.
pub struct CollisionsData {
    pub aggregate: Vec<u64>,
    pub ring_size: usize,
    pub write_index: usize,
}

impl CollisionsData {
    /// The aggregate covers every scan line, the ring is big enough to keep
    /// reads off in-flight copies, and the write index stays in the ring.
    pub open spec fn wf(self) -> bool {
        &&& self.aggregate@.len() == COLLISIONS_SCAN_LINES
        &&& 2 <= self.ring_size
        &&& self.write_index < self.ring_size
    }

    /// The slot that is mapped and reduced this frame: the oldest completed
    /// slot, written `ring_size - 1` frames ago.
    pub open spec fn spec_read_slot(self) -> int {
        (self.write_index as int + 1) % (self.ring_size as int)
    }

    /// A fresh ring with an all-zero aggregate.
    pub fn new(ring_size: usize) -> (r: Self)
        requires
            2 <= ring_size,
        ensures
            r.wf(),
            r.ring_size == ring_size,
            r.write_index == 0,
            forall|x: int|
                0 <= x < COLLISIONS_SCAN_LINES ==> r.aggregate@[x] == 0u64,
    {
        CollisionsData {
            aggregate: vec![0u64; COLLISIONS_SCAN_LINES],
            ring_size,
            write_index: 0,
        }
    }

    /// The ring slot that receives this frame's texture copy.
    pub fn write_slot(&self) -> (r: usize)
        ensures
            r == self.write_index,
    {
        self.write_index
    }

    /// The ring slot that is mapped for read this frame; never the slot the
    /// current frame's copy targets.
    pub fn read_slot(&self) -> (r: usize)
        requires
            self.wf(),
        ensures
            r == self.spec_read_slot(),
            r != self.write_index,
            r < self.ring_size,
    {
        proof {
            lemma_ring_non_aliasing(*self);
        }
        (self.write_index + 1) % self.ring_size
    }

    /// Advances the ring by exactly one slot, wrapping at the ring size.
    pub fn advance(&mut self)
        requires
            old(self).wf(),
        ensures
            final(self).wf(),
            final(self).ring_size == old(self).ring_size,
            final(self).aggregate == old(self).aggregate,
            final(self).write_index == (old(self).write_index + 1) % (
            old(self).ring_size as int),
    {
        self.write_index = (self.write_index + 1) % self.ring_size;
    }

    /// Consumes one mapped readback slot: advances the ring by one slot and
    /// reduces the mapped words, row 0 of each column initializing the
    /// scan line's aggregate entry and every further row ORing into it.
    #[verifier::loop_isolation(false)]
    pub fn read_collisions(&mut self, words: &[u64], rows: usize)
        requires
            old(self).wf(),
            1 <= rows,
            words@.len() == rows * COLLISIONS_ROW_STRIDE,
        ensures
            final(self).wf(),
            final(self).ring_size == old(self).ring_size,
            final(self).write_index == (old(self).write_index + 1) % (
            old(self).ring_size as int),
            forall|x: int|
                0 <= x < COLLISIONS_SCAN_LINES ==> final(self).aggregate@[x] == row_fold(
                    words@,
                    rows as nat,
                    x,
                ),
    {
        let total: usize = words.len();
        self.write_index = (self.write_index + 1) % self.ring_size;
        let mut x: usize = 0;
        while x < COLLISIONS_SCAN_LINES
            invariant
                self.aggregate@.len() == COLLISIONS_SCAN_LINES,
                x <= COLLISIONS_SCAN_LINES,
                forall|i: int| 0 <= i < x ==> self.aggregate@[i] == row_fold(words@, 1, i),
                forall|i: int|
                    x <= i < COLLISIONS_SCAN_LINES ==> self.aggregate@[i] == old(
                        self,
                    ).aggregate@[i],
                self.write_index == (old(self).write_index + 1) % (old(self).ring_size as int),
                self.ring_size == old(self).ring_size,
            decreases COLLISIONS_SCAN_LINES - x,
        {
            self.aggregate[x] = words[x];
            x += 1;
        }
        let mut y: usize = 1;
        while y < rows
            invariant
                self.aggregate@.len() == COLLISIONS_SCAN_LINES,
                1 <= y <= rows,
                forall|i: int|
                    0 <= i < COLLISIONS_SCAN_LINES ==> self.aggregate@[i] == row_fold(
                        words@,
                        y as nat,
                        i,
                    ),
                self.write_index == (old(self).write_index + 1) % (old(self).ring_size as int),
                self.ring_size == old(self).ring_size,
            decreases rows - y,
        {
            let mut x2: usize = 0;
            while x2 < COLLISIONS_SCAN_LINES
                invariant
                    self.aggregate@.len() == COLLISIONS_SCAN_LINES,
                    x2 <= COLLISIONS_SCAN_LINES,
                    1 <= y < rows,
                    forall|i: int|
                        0 <= i < x2 ==> self.aggregate@[i] == row_fold(
                            words@,
                            (y + 1) as nat,
                            i,
                        ),
                    forall|i: int|
                        x2 <= i < COLLISIONS_SCAN_LINES ==> self.aggregate@[i] == row_fold(
                            words@,
                            y as nat,
                            i,
                        ),
                    self.write_index == (old(self).write_index + 1) % (
                    old(self).ring_size as int),
                    self.ring_size == old(self).ring_size,
                decreases COLLISIONS_SCAN_LINES - x2,
            {
                proof {
                    assert(y * COLLISIONS_ROW_STRIDE + x2 < total);
                }
                let merged: u64 = self.aggregate[x2] | words[y * COLLISIONS_ROW_STRIDE + x2];
                self.aggregate[x2] = merged;
                proof {
                    assert(row_fold(words@, (y + 1) as nat, x2 as int) == row_fold(
                        words@,
                        y as nat,
                        x2 as int,
                    ) | collision_sample(words@, y as int, x2 as int));
                }
                x2 += 1;
            }
            y += 1;
        }
    }
}

/// Ring non-aliasing: the slot mapped for read this frame is never the slot
/// that this frame's copy targets.
pub proof fn lemma_ring_non_aliasing(c: CollisionsData)
    requires
        c.wf(),
    ensures
        c.spec_read_slot() != c.write_index,
        0 <= c.spec_read_slot() < c.ring_size,
{
    let n = c.ring_size as int;
    let w = c.write_index as int;
    if w + 1 < n {
        lemma_small_mod((w + 1) as nat, n as nat);
    } else {
        lemma_mod_self_0(n);
    }
}

/// Ring schedule: with the write index advancing one slot per frame from
/// `w0`, the slot mapped while processing frame `k` is exactly the slot whose
/// copy was issued at frame `k - (n - 1)`, `n` being the ring size.
pub proof fn lemma_ring_schedule(w0: int, k: int, n: int)
    requires
        2 <= n,
        0 <= w0 < n,
        n - 1 <= k,
    ensures
        (w0 + k + 1) % n == (w0 + (k - (n - 1))) % n,
{
    lemma_mod_add_multiples_vanish(w0 + k - (n - 1), n);
}

/// Reducing a column whose samples are all zero yields a zero aggregate
/// entry.
pub proof fn lemma_row_fold_zero(words: Seq<u64>, rows: nat, x: int)
    requires
        1 <= rows,
        0 <= x < COLLISIONS_ROW_STRIDE,
        words.len() >= rows * COLLISIONS_ROW_STRIDE,
        forall|y: int| 0 <= y < rows ==> collision_sample(words, y, x) == 0u64,
    ensures
        row_fold(words, rows, x) == 0u64,
    decreases rows,
{
    if rows <= 1 {
        assert(collision_sample(words, 0, x) == 0u64);
    } else {
        lemma_row_fold_zero(words, (rows - 1) as nat, x);
        assert(0u64 | 0u64 == 0u64) by (bit_vector);
    }
}

/// Reducing a column with exactly one nonzero sample yields exactly that
/// sample: in particular a single set bit anywhere in the column sets exactly
/// that bit of the scan line's aggregate entry.
pub proof fn lemma_row_fold_single(words: Seq<u64>, rows: nat, x: int, y0: int, v: u64)
    requires
        1 <= rows,
        0 <= x < COLLISIONS_ROW_STRIDE,
        words.len() >= rows * COLLISIONS_ROW_STRIDE,
        0 <= y0 < rows,
        collision_sample(words, y0, x) == v,
        forall|y: int| 0 <= y < rows && y != y0 ==> collision_sample(words, y, x) == 0u64,
    ensures
        row_fold(words, rows, x) == v,
    decreases rows,
{
    assert(forall|a: u64| #[trigger] (a | 0u64) == a) by (bit_vector);
    assert(forall|a: u64| #[trigger] (0u64 | a) == a) by (bit_vector);
    if rows <= 1 {
        assert(row_fold(words, rows, x) == collision_sample(words, 0, x));
    } else {
        if y0 == rows - 1 {
            lemma_row_fold_zero(words, (rows - 1) as nat, x);
        } else {
            lemma_row_fold_single(words, (rows - 1) as nat, x, y0, v);
        }
    }
}

} // verus!
