use vstd::prelude::*;
use ethnum::U256;
use crate::word::{be_bytes_of, word_to_be_bytes};

verus! {

/// Memory after growing it to `size` bytes with zeros; it never shrinks.
pub open spec fn mem_grow(m: Seq<u8>, size: int) -> Seq<u8> {
    if m.len() < size {
        m + Seq::new((size - m.len()) as nat, |i: int| 0u8)
    } else {
        m
    }
}

/// Memory after writing `data` at `offset`.
pub open spec fn mem_write(m: Seq<u8>, offset: int, data: Seq<u8>) -> Seq<u8> {
    m.subrange(0, offset) + data + m.subrange(offset + data.len(), m.len() as int)
}

/// What a read of `size` bytes at `offset` returns: nothing for an empty read or an offset at
/// or past the end, else the bytes of the range.
pub open spec fn mem_read(m: Seq<u8>, offset: int, size: int) -> Option<Seq<u8>> {
    if size == 0 || offset >= m.len() {
        None
    } else {
        Some(m.subrange(offset, offset + size))
    }
}

/// Memory after copying `len` bytes from `src` to `dst`, as if through a temporary buffer.
pub open spec fn mem_copy(m: Seq<u8>, dst: int, src: int, len: int) -> Seq<u8> {
    if len == 0 {
        m
    } else {
        mem_write(m, dst, m.subrange(src, src + len))
    }
}

/// Memory after growing it to each of `sizes` in turn.
pub open spec fn mem_grow_all(m: Seq<u8>, sizes: Seq<int>) -> Seq<u8>
    decreases sizes.len(),
{
    if sizes.len() == 0 {
        m
    } else {
        mem_grow(mem_grow_all(m, sizes.drop_last()), sizes.last())
    }
}

/// Growing never shrinks memory, and after any sequence of grows its length is the largest of
/// its first length and the sizes asked for.
pub proof fn lemma_grow_monotonic(m: Seq<u8>, sizes: Seq<int>)
    ensures
        mem_grow_all(m, sizes).len() >= m.len(),
        forall|i: int| 0 <= i < sizes.len() ==> mem_grow_all(m, sizes).len() >= #[trigger] sizes[i],
        mem_grow_all(m, sizes).len() == m.len() || exists|i: int|
            0 <= i < sizes.len() && mem_grow_all(m, sizes).len() == #[trigger] sizes[i],
        mem_grow_all(m, sizes).subrange(0, m.len() as int) == m,
    decreases sizes.len(),
{
    if sizes.len() > 0 {
        let rest = sizes.drop_last();
        lemma_grow_monotonic(m, rest);
        let before = mem_grow_all(m, rest);
        let after = mem_grow_all(m, sizes);
        assert(after.subrange(0, before.len() as int) =~= before);
        assert(after.subrange(0, m.len() as int) =~= before.subrange(0, m.len() as int));
        assert forall|i: int| 0 <= i < sizes.len() implies after.len() >= #[trigger] sizes[i] by {
            if i < rest.len() {
                assert(sizes[i] == rest[i]);
            }
        }
        if after.len() != m.len() {
            if after.len() == before.len() {
                let j = choose|j: int| 0 <= j < rest.len() && before.len() == #[trigger] rest[j];
                assert(sizes[j] == rest[j]);
            } else {
                assert(after.len() == sizes[sizes.len() - 1]);
            }
        }
    }
}

/// Writing a range and then reading it back gives exactly the bytes written.
pub proof fn lemma_write_read(m: Seq<u8>, offset: int, data: Seq<u8>)
    requires
        0 <= offset,
        offset + data.len() <= m.len(),
        data.len() > 0,
    ensures
        mem_write(m, offset, data).len() == m.len(),
        mem_read(mem_write(m, offset, data), offset, data.len() as int) == Some(data),
{
    assert(mem_write(m, offset, data).subrange(offset, offset + data.len()) =~= data);
}

/// In 32 bytes of grown memory holding `a` then `b`, copying the upper half down gives `b`
/// twice, and copying the lower half up gives `a` twice.
pub proof fn lemma_overlapping_copy(a: Seq<u8>, b: Seq<u8>)
    requires
        a.len() == 16,
        b.len() == 16,
    ensures
        mem_copy(mem_write(mem_write(mem_grow(Seq::empty(), 32), 0, a), 16, b), 0, 16, 16) == b
            + b,
        mem_copy(mem_write(mem_write(mem_grow(Seq::empty(), 32), 0, a), 16, b), 16, 0, 16) == a
            + a,
{
    let m = mem_write(mem_write(mem_grow(Seq::empty(), 32), 0, a), 16, b);
    assert(m =~= a + b);
    assert(mem_copy(m, 0, 16, 16) =~= b + b);
    assert(mem_copy(m, 16, 0, 16) =~= a + a);
}

/// Byte-addressed memory of a call frame; it only grows.
pub struct Memory {
    store: Vec<u8>,
    last_gas_cost: u64,
}

impl View for Memory {
    type V = Seq<u8>;

    closed spec fn view(&self) -> Seq<u8> {
        self.store@
    }
}

impl Memory {
    /// Empty memory.
    pub fn new() -> (r: Memory)
        ensures
            r@ == Seq::<u8>::empty(),
    {
        Memory { store: Vec::new(), last_gas_cost: 0 }
    }

    /// Writes the first `size` bytes of `value` at `offset`. Memory must already cover the
    /// range; a write of zero bytes changes nothing, wherever it points.
    pub fn set(&mut self, offset: usize, size: usize, value: Vec<u8>)
        requires
            size > 0 ==> offset + size <= old(self)@.len() && value@.len() >= size,
        ensures
            size == 0 ==> final(self)@ == old(self)@,
            size > 0 ==> final(self)@ == mem_write(
                old(self)@,
                offset as int,
                value@.subrange(0, size as int),
            ),
    {
        if size == 0 {
            return;
        }
        let total = self.store.len();
        let mut i: usize = 0;
        while i < size
            invariant
                total == old(self)@.len(),
                offset + size <= old(self)@.len(),
                value@.len() >= size,
                i <= size,
                self@.len() == old(self)@.len(),
                forall|k: int|
                    0 <= k < self@.len() ==> #[trigger] self@[k] == if offset <= k < offset + i {
                        value@[k - offset]
                    } else {
                        old(self)@[k]
                    },
            decreases size - i,
        {
            self.store.set(offset + i, value[i]);
            i = i + 1;
        }
        proof {
            assert(self@ =~= mem_write(old(self)@, offset as int, value@.subrange(0, size as int)));
        }
    }

    /// Writes the word as 32 big-endian bytes at `offset`; memory must already cover them.
    pub fn set_32(&mut self, offset: usize, val: U256)
        requires
            offset + 32 <= old(self)@.len(),
        ensures
            final(self)@ == mem_write(old(self)@, offset as int, be_bytes_of(val)),
    {
        let bytes = word_to_be_bytes(val);
        let total = self.store.len();
        let mut i: usize = 0;
        while i < 32
            invariant
                total == old(self)@.len(),
                offset + 32 <= old(self)@.len(),
                bytes@ == be_bytes_of(val),
                bytes@.len() == 32,
                i <= 32,
                self@.len() == old(self)@.len(),
                forall|k: int|
                    0 <= k < self@.len() ==> #[trigger] self@[k] == if offset <= k < offset + i {
                        bytes@[k - offset]
                    } else {
                        old(self)@[k]
                    },
            decreases 32 - i,
        {
            self.store.set(offset + i, bytes[i]);
            i = i + 1;
        }
        proof {
            assert(self@ =~= mem_write(old(self)@, offset as int, be_bytes_of(val)));
        }
    }

    /// Grows memory with zero bytes to `size`; a smaller `size` changes nothing.
    pub fn resize(&mut self, size: usize)
        ensures
            final(self)@ == mem_grow(old(self)@, size as int),
            final(self)@.len() == if old(self)@.len() < size {
                size as nat
            } else {
                old(self)@.len()
            },
    {
        while self.store.len() < size
            invariant
                self@.len() <= if old(self)@.len() < size {
                    size as nat
                } else {
                    old(self)@.len()
                },
                self@.len() >= old(self)@.len(),
                self@.subrange(0, old(self)@.len() as int) == old(self)@,
                forall|k: int| old(self)@.len() <= k < self@.len() ==> #[trigger] self@[k] == 0u8,
            decreases size - self@.len(),
        {
            self.store.push(0u8);
            proof {
                assert(self@.subrange(0, old(self)@.len() as int) =~= old(self)@);
            }
        }
        proof {
            assert(self@ =~= mem_grow(old(self)@, size as int));
        }
    }

    /// A fresh copy of `size` bytes at `offset`; `None` for an empty read or for an offset at
    /// or past the end. A read that starts inside memory must end inside it.
    pub fn get_copy(&self, offset: usize, size: usize) -> (r: Option<Vec<u8>>)
        requires
            size > 0 && offset < self@.len() ==> offset + size <= self@.len(),
        ensures
            r is None <==> mem_read(self@, offset as int, size as int) is None,
            r matches Some(v) ==> mem_read(self@, offset as int, size as int) == Some(v@),
    {
        if size == 0 {
            return None;
        }
        if self.store.len() > offset {
            let total = self.store.len();
            let mut out: Vec<u8> = Vec::new();
            let mut i: usize = 0;
            while i < size
                invariant
                    total == self@.len(),
                    offset + size <= self@.len(),
                    i <= size,
                    out@ == self@.subrange(offset as int, offset + i),
                decreases size - i,
            {
                out.push(self.store[offset + i]);
                i = i + 1;
                proof {
                    assert(out@ =~= self@.subrange(offset as int, offset + i));
                }
            }
            return Some(out);
        }
        None
    }

    /// Size in bytes.
    pub fn len(&self) -> (r: usize)
        ensures
            r == self@.len(),
    {
        self.store.len()
    }

    /// Copies `len` bytes from `src` to `dst`; the ranges may overlap. Memory must already
    /// cover both; a copy of zero bytes changes nothing.
    pub fn copy(&mut self, dst: usize, src: usize, len: usize)
        requires
            len > 0 ==> src + len <= old(self)@.len() && dst + len <= old(self)@.len(),
        ensures
            final(self)@ == mem_copy(old(self)@, dst as int, src as int, len as int),
    {
        if len == 0 {
            return;
        }
        let total = self.store.len();
        if dst <= src {
            let mut i: usize = 0;
            while i < len
                invariant
                    total == old(self)@.len(),
                    src + len <= old(self)@.len(),
                    dst + len <= old(self)@.len(),
                    dst <= src,
                    i <= len,
                    self@.len() == old(self)@.len(),
                    forall|k: int|
                        0 <= k < self@.len() ==> #[trigger] self@[k] == if dst <= k < dst + i {
                            old(self)@[k - dst + src]
                        } else {
                            old(self)@[k]
                        },
                decreases len - i,
            {
                let b = self.store[src + i];
                self.store.set(dst + i, b);
                i = i + 1;
            }
        } else {
            let mut i: usize = len;
            while i > 0
                invariant
                    total == old(self)@.len(),
                    src + len <= old(self)@.len(),
                    dst + len <= old(self)@.len(),
                    src < dst,
                    i <= len,
                    self@.len() == old(self)@.len(),
                    forall|k: int|
                        0 <= k < self@.len() ==> #[trigger] self@[k] == if dst + i <= k < dst
                            + len {
                            old(self)@[k - dst + src]
                        } else {
                            old(self)@[k]
                        },
                decreases i,
            {
                let b = self.store[src + i - 1];
                self.store.set(dst + i - 1, b);
                i = i - 1;
            }
        }
        proof {
            assert(self@ =~= mem_copy(old(self)@, dst as int, src as int, len as int));
        }
    }
}

impl Default for Memory {
    fn default() -> (r: Memory)
        ensures
            r@ == Seq::<u8>::empty(),
    {
        Memory::new()
    }
}

impl AsRef<[u8]> for Memory {
    fn as_ref(&self) -> &[u8] {
        self.store.as_slice()
    }
}

} // verus!
