//! The ring texture store: a fixed 256-row by 2048-column buffer of alpha
//! bytes, treated as a circular buffer of time rows. Each animation tick
//! writes one row at the current write offset and advances the offset modulo
//! the row count; old rows are never cleared, only overwritten a full cycle
//! later.

use vstd::arithmetic::div_mod::lemma_add_mod_noop;
use vstd::prelude::*;

verus! {

/// Number of time rows in the ring texture.
pub const ROWS: usize = 256;

/// Number of frequency bins per row (the texture width).
pub const COLS: usize = 2048;

/// Advancing the write offset by one step wraps modulo the row count.
pub open spec fn advance(o: int) -> int {
    (o + 1) % (ROWS as int)
}

/// The offset reached from `o` after `k` single-row writes.
pub open spec fn offset_after(o: int, k: nat) -> int
    decreases k,
{
    if k == 0 {
        o
    } else {
        advance(offset_after(o, (k - 1) as nat))
    }
}

/// The row that the `k`-th write (counting from zero) lands in, starting
/// from write offset `o`.
pub open spec fn row_of_write(o: int, k: nat) -> int {
    offset_after(o, k)
}

/// Stepping `k` times from a valid offset is plain addition modulo the row
/// count.
pub proof fn lemma_offset_after(o: int, k: nat)
    requires
        0 <= o < ROWS,
    ensures
        offset_after(o, k) == (o + k) % (ROWS as int),
    decreases k,
{
    let n = ROWS as int;
    if k == 0 {
        assert(o % n == o) by {
            vstd::arithmetic::div_mod::lemma_small_mod(o as nat, ROWS as nat);
        }
    } else {
        lemma_offset_after(o, (k - 1) as nat);
        lemma_add_mod_noop(o + (k - 1), 1, n);
        assert((o + (k - 1)) % n + 1int % n == offset_after(o, (k - 1) as nat) + 1) by {
            vstd::arithmetic::div_mod::lemma_small_mod(1nat, ROWS as nat);
        }
        assert(offset_after(o, k) == ((o + (k - 1)) % n + 1int % n) % n);
    }
}

/// The write offset cycles with period exactly the row count: after one full
/// cycle of writes it returns to its initial value, so the write after a full
/// cycle overwrites the same row as the first one did.
pub proof fn lemma_ring_period(o: int)
    requires
        0 <= o < ROWS,
    ensures
        offset_after(o, ROWS as nat) == o,
        row_of_write(o, ROWS as nat) == row_of_write(o, 0),
{
    lemma_offset_after(o, ROWS as nat);
    vstd::arithmetic::div_mod::lemma_mod_add_multiples_vanish(o, ROWS as int);
    vstd::arithmetic::div_mod::lemma_small_mod(o as nat, ROWS as nat);
}

/// The contents of a freshly allocated ring: every byte of every row zero.
pub open spec fn zero_rows() -> Seq<Seq<u8>> {
    Seq::new(ROWS as nat, |r: int| Seq::new(COLS as nat, |c: int| 0u8))
}

/// The CPU-side model of the ring texture: the byte contents of every row,
/// plus the index of the next row to overwrite. The embedding mirrors each
/// row write into the GPU texture as a sub-region update.
pub struct RingTexture {
    data: Vec<Vec<u8>>,
    write_offset: usize,
}

impl RingTexture {
    /// The bytes of all rows, oldest to newest in ring order starting from
    /// row zero.
    pub closed spec fn rows(&self) -> Seq<Seq<u8>> {
        Seq::new(ROWS as nat, |r: int| self.data@[r]@)
    }

    /// The index of the next row to overwrite.
    pub closed spec fn offset(&self) -> int {
        self.write_offset as int
    }

    /// The bytes of row `r`.
    pub open spec fn row(&self, r: int) -> Seq<u8> {
        self.rows()[r]
    }

    /// Structural invariant: a full grid of rows, each of full width, and a
    /// write offset inside the ring.
    pub closed spec fn wf(&self) -> bool {
        &&& self.data@.len() == ROWS
        &&& forall|r: int| 0 <= r < ROWS ==> (#[trigger] self.data@[r])@.len() == COLS
        &&& self.write_offset < ROWS
    }

    /// A freshly allocated ring: every byte zero, write offset at row zero.
    pub fn new() -> (r: RingTexture)
        ensures
            r.wf(),
            r.offset() == 0,
            r.rows() == zero_rows(),
    {
        let mut data: Vec<Vec<u8>> = Vec::new();
        let mut i: usize = 0;
        while i < ROWS
            invariant
                i <= ROWS,
                data@.len() == i,
                forall|r: int| #![trigger data@[r]]
                    0 <= r < i ==> data@[r]@.len() == COLS && forall|j: int|
                        0 <= j < COLS ==> data@[r]@[j] == 0u8,
            decreases ROWS - i,
        {
            data.push(zero_row());
            i = i + 1;
        }
        let r = RingTexture { data, write_offset: 0 };
        proof {
            assert forall|t: int| 0 <= t < ROWS implies #[trigger] r.rows()[t] =~= zero_rows()[t] by {
                assert(r.rows()[t] == r.data@[t]@);
            }
            assert(r.rows() =~~= zero_rows());
        }
        r
    }

    /// Write one row of bytes into the ring at the current write offset and
    /// advance the offset by one, wrapping modulo the row count. No other row
    /// is touched.
    pub fn write_row(&mut self, row: &Vec<u8>)
        requires
            old(self).wf(),
            row@.len() == COLS,
        ensures
            final(self).wf(),
            final(self).offset() == advance(old(self).offset()),
            final(self).rows() == old(self).rows().update(old(self).offset(), row@),
    {
        let off = self.write_offset;
        let slot = &mut self.data[off];
        *slot = copy_row(row);
        self.write_offset = (off + 1) % ROWS;
        proof {
            assert(self.rows() =~~= old(self).rows().update(old(self).offset(), row@));
        }
    }

    /// The current write offset as an executable value. The scroll uniform of
    /// the draw call is this numerator over the row count.
    pub fn write_offset(&self) -> (r: usize)
        ensures
            r == self.offset(),
    {
        self.write_offset
    }

    /// The bytes of row `r` as an executable value.
    pub fn row_bytes(&self, r: usize) -> (b: &Vec<u8>)
        requires
            self.wf(),
            r < ROWS,
        ensures
            b@ == self.row(r as int),
    {
        &self.data[r]
    }
}

/// A row of full width with every byte zero.
fn zero_row() -> (r: Vec<u8>)
    ensures
        r@.len() == COLS,
        forall|j: int| 0 <= j < COLS ==> r@[j] == 0u8,
{
    let mut v: Vec<u8> = Vec::new();
    let mut j: usize = 0;
    while j < COLS
        invariant
            j <= COLS,
            v@.len() == j,
            forall|t: int| 0 <= t < j ==> v@[t] == 0u8,
        decreases COLS - j,
    {
        v.push(0u8);
        j = j + 1;
    }
    v
}

/// An element-for-element copy of a byte row.
fn copy_row(src: &Vec<u8>) -> (r: Vec<u8>)
    ensures
        r@ == src@,
{
    let mut v: Vec<u8> = Vec::new();
    let mut j: usize = 0;
    while j < src.len()
        invariant
            j <= src@.len(),
            v@.len() == j,
            forall|t: int| 0 <= t < j ==> v@[t] == src@[t],
        decreases src@.len() - j,
    {
        v.push(src[j]);
        j = j + 1;
    }
    assert(v@ =~= src@);
    v
}

} // verus!
