//! A preallocated output buffer with positional writes: the in-memory model
//! of the destination file. Extending the output to its final size up front
//! guarantees that every positional write lands inside a valid extent, which
//! is what makes concurrent writes to disjoint ranges safe without a lock on
//! the file itself.
use vstd::prelude::*;

verus! {

/// The sequence `s` with `b` laid over it starting at `offset`; positions
/// outside `[offset, offset + b.len())` keep their old value.
pub open spec fn spec_overlay(s: Seq<u8>, offset: int, b: Seq<u8>) -> Seq<u8> {
    Seq::new(
        s.len(),
        |i: int|
            if offset <= i < offset + b.len() {
                b[i - offset]
            } else {
                s[i]
            },
    )
}

/// A fixed-size output accepting positional writes, mirroring the contract of
/// the preallocated destination file.
pub struct MemorySink {
    data: Vec<u8>,
}

impl View for MemorySink {
    type V = Seq<u8>;

    closed spec fn view(&self) -> Seq<u8> {
        self.data@
    }
}

impl MemorySink {
    /// Create an output of exactly `total` bytes, all zero.
    pub fn preallocate(total: usize) -> (r: Self)
        ensures
            r@.len() == total,
            forall|i: int| 0 <= i < total ==> r@[i] == 0,
    {
        let mut data: Vec<u8> = Vec::new();
        data.resize(total, 0u8);
        MemorySink { data }
    }

    /// The fixed size of the output.
    pub fn len(&self) -> (n: usize)
        ensures
            n == self@.len(),
    {
        self.data.len()
    }

    /// Write `buf` at byte offset `offset`, leaving every other byte as it
    /// was. Callers with disjoint ranges therefore never disturb each other.
    pub fn write_at(&mut self, offset: usize, buf: &[u8])
        requires
            offset + buf@.len() <= old(self)@.len(),
        ensures
            final(self)@ == spec_overlay(old(self)@, offset as int, buf@),
    {
        let n = buf.len();
        let cap = self.data.len();
        let mut i: usize = 0;
        while i < n
            invariant
                n == buf@.len(),
                cap == self@.len(),
                offset + n <= self@.len(),
                self@.len() == old(self)@.len(),
                0 <= i <= n,
                forall|k: int| 0 <= k < i ==> self@[offset + k] == buf@[k],
                forall|k: int|
                    0 <= k < self@.len() && !(offset <= k < offset + i) ==> self@[k] == old(
                        self,
                    )@[k],
            decreases n - i,
        {
            let b = buf[i];
            self.data.set(offset + i, b);
            i = i + 1;
        }
        proof {
            assert(final(self)@ =~= spec_overlay(old(self)@, offset as int, buf@));
        }
    }

    /// Hand the finished bytes out.
    pub fn into_bytes(self) -> (r: Vec<u8>)
        ensures
            r@ == self@,
    {
        self.data
    }

    /// Read one byte back.
    pub fn byte_at(&self, i: usize) -> (b: u8)
        requires
            i < self@.len(),
        ensures
            b == self@[i as int],
    {
        self.data[i]
    }
}

} // verus!
