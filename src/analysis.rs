use vstd::prelude::*;
use crate::opcodes::{push_width_of, Opcode, JUMPDEST};

verus! {

/// Bit `k` (0 = least significant) of a byte.
pub open spec fn bit_of(b: u8, k: int) -> bool {
    (b >> (k as u8)) & 1u8 == 1u8
}

/// Whether byte `j` of `code` is immediate data of a push, when decoding starts at `pc`.
pub open spec fn in_push_data(code: Seq<u8>, pc: int, j: int) -> bool
    decreases code.len() - pc,
{
    if pc < 0 || pc >= code.len() {
        false
    } else {
        let w = push_width_of(code[pc]) as int;
        (pc < j <= pc + w) || (pc + 1 + w < code.len() && in_push_data(code, pc + 1 + w, j))
    }
}

/// Whether byte `i` of `code` is immediate data of a push, decoding sequentially from offset 0.
pub open spec fn is_push_data(code: Seq<u8>, i: int) -> bool {
    in_push_data(code, 0, i)
}

/// A jump may land on `pos` exactly when it holds JUMPDEST as an opcode, not as push data.
pub open spec fn is_jump_destination(code: Seq<u8>, pos: int) -> bool {
    0 <= pos < code.len() && !is_push_data(code, pos) && code[pos] == JUMPDEST
}

/// A bit per byte of a program: an unset bit means the byte is an opcode, a set bit means it
/// is data (the immediate of a PUSHn).
pub struct BitVec {
    inner: Vec<u8>,
}

impl View for BitVec {
    type V = Seq<bool>;

    closed spec fn view(&self) -> Seq<bool> {
        Seq::new(self.inner@.len() * 8, |i: int| bit_of(self.inner@[i / 8], i % 8))
    }
}

proof fn lemma_bit_set(b: u8, k: u8, j: u8)
    requires
        k < 8,
        j < 8,
    ensures
        bit_of(b | (1u8 << k), j as int) == (j == k || bit_of(b, j as int)),
{
    assert(((b | (1u8 << k)) >> j) & 1u8 == 1u8 <==> (j == k || (b >> j) & 1u8 == 1u8))
        by (bit_vector)
        requires
            k < 8,
            j < 8,
    ;
}

proof fn lemma_bit_zero(j: u8)
    requires
        j < 8,
    ensures
        !bit_of(0u8, j as int),
{
    assert((0u8 >> j) & 1u8 != 1u8) by (bit_vector);
}

impl BitVec {
    /// A bitmap for `len` bytes, every bit unset.
    pub fn new(len: usize) -> (r: BitVec)
        ensures
            r@.len() == (len / 8 + 1) * 8,
            forall|i: int| 0 <= i < r@.len() ==> !#[trigger] r@[i],
    {
        let r = BitVec { inner: vec![0u8; len / 8 + 1] };
        proof {
            assert forall|i: int| 0 <= i < r@.len() implies !#[trigger] r@[i] by {
                lemma_bit_zero((i % 8) as u8);
            }
        }
        r
    }

    /// Marks byte `pos` as data.
    pub fn set_1(&mut self, pos: usize)
        requires
            pos < old(self)@.len(),
        ensures
            final(self)@ == old(self)@.update(pos as int, true),
    {
        let i = pos / 8;
        let k = (pos % 8) as u8;
        let b = self.inner[i];
        self.inner.set(i, b | (1u8 << k));
        proof {
            assert forall|q: int| 0 <= q < self@.len() implies #[trigger] self@[q] == old(
                self,
            )@.update(pos as int, true)[q] by {
                if q / 8 == i as int {
                    lemma_bit_set(b, k, (q % 8) as u8);
                }
            }
            assert(self@ =~= old(self)@.update(pos as int, true));
        }
    }

    /// Whether byte `pos` is marked as data; a position past the bitmap is not.
    pub fn is_set(&self, pos: usize) -> (r: bool)
        ensures
            r == (pos < self@.len() && self@[pos as int]),
    {
        let i = pos / 8;
        if i >= self.inner.len() {
            return false;
        }
        let k = (pos % 8) as u8;
        (self.inner[i] >> k) & 1u8 == 1u8
    }
}

/// One push step of the walk: the immediate bytes of the instruction at `pc` move from what is
/// still to decode into the range to mark.
proof fn lemma_push_step(code: Seq<u8>, bits: Seq<bool>, pc: int, next: int)
    requires
        0 <= pc < code.len(),
        bits.len() >= code.len(),
        next == if pc + 1 + push_width_of(code[pc]) <= code.len() {
            pc + 1 + push_width_of(code[pc])
        } else {
            code.len() as int
        },
        forall|j: int|
            0 <= j < code.len() ==> (is_push_data(code, j) <==> (bits[j] || in_push_data(
                code,
                pc,
                j,
            ))),
    ensures
        forall|j: int|
            0 <= j < code.len() ==> (is_push_data(code, j) <==> (bits[j] || (pc + 1 <= j < next)
                || in_push_data(code, next, j))),
{
    assert forall|j: int| 0 <= j < code.len() implies (is_push_data(code, j) <==> (bits[j] || (pc
        + 1 <= j < next) || in_push_data(code, next, j))) by {
        let w = push_width_of(code[pc]) as int;
        assert(in_push_data(code, pc, j) == ((pc < j <= pc + w) || (pc + 1 + w < code.len()
            && in_push_data(code, pc + 1 + w, j))));
        if next >= code.len() {
            assert(!in_push_data(code, next, j));
        }
    }
}

/// Walks `code` from offset 0, one instruction at a time, and marks the immediate bytes of each
/// push; a push cut short by the end of the code marks only the bytes that are there. Undefined
/// bytes count as one-byte instructions.
pub fn analyze(code: &[u8]) -> (r: BitVec)
    ensures
        r@.len() >= code@.len(),
        forall|i: int| 0 <= i < code@.len() ==> r@[i] == is_push_data(code@, i),
        forall|i: int| code@.len() <= i < r@.len() ==> !r@[i],
{
    let n = code.len();
    let mut bits = BitVec::new(n);
    let mut pc: usize = 0;
    while pc < n
        invariant
            n == code@.len(),
            pc <= n,
            bits@.len() >= n,
            forall|j: int| n <= j < bits@.len() ==> !bits@[j],
            forall|j: int|
                0 <= j < n ==> (is_push_data(code@, j) <==> (bits@[j] || in_push_data(
                    code@,
                    pc as int,
                    j,
                ))),
        decreases n - pc,
    {
        let width = match Opcode::decode(code[pc]) {
            Ok(op) => op.push_width(),
            Err(_) => 0,
        };
        assert(width == push_width_of(code@[pc as int]));
        let remaining = n - pc - 1;
        let m = if width <= remaining {
            width
        } else {
            remaining
        };
        let next = pc + 1 + m;
        proof {
            lemma_push_step(code@, bits@, pc as int, next as int);
        }
        let mut k: usize = 0;
        while k < m
            invariant
                n == code@.len(),
                pc < n,
                m <= remaining,
                remaining == n - pc - 1,
                next == pc + 1 + m,
                k <= m,
                bits@.len() >= n,
                forall|j: int| n <= j < bits@.len() ==> !bits@[j],
                forall|j: int|
                    0 <= j < n ==> (is_push_data(code@, j) <==> (bits@[j] || (pc + 1 + k <= j
                        < next) || in_push_data(code@, next as int, j))),
            decreases m - k,
        {
            let ghost before = bits@;
            bits.set_1(pc + 1 + k);
            proof {
                assert forall|j: int| 0 <= j < n implies (is_push_data(
                    code@,
                    j,
                ) <==> (bits@[j] || (pc + 1 + k + 1 <= j < next) || in_push_data(
                    code@,
                    next as int,
                    j,
                ))) by {
                    assert(before[j] ==> bits@[j]);
                    assert(j != pc + 1 + k ==> bits@[j] == before[j]);
                }
            }
            k = k + 1;
        }
        pc = next;
    }
    bits
}

/// Whether a jump may land on `pos`, given the bitmap that `analyze` made of `code`: the byte is
/// an opcode, not data, and it is JUMPDEST.
pub fn is_valid_jump_destination(bitmap: &BitVec, code: &[u8], pos: usize) -> (r: bool)
    ensures
        r == (pos < code@.len() && code@[pos as int] == JUMPDEST && !(pos < bitmap@.len()
            && bitmap@[pos as int])),
{
    pos < code.len() && code[pos] == JUMPDEST && !bitmap.is_set(pos)
}

/// On the bitmap that `analyze` made, `is_valid_jump_destination` answers exactly
/// `is_jump_destination`.
pub proof fn lemma_jump_destination(code: Seq<u8>, bits: Seq<bool>, pos: int)
    requires
        bits.len() >= code.len(),
        forall|i: int| 0 <= i < code.len() ==> bits[i] == is_push_data(code, i),
    ensures
        (0 <= pos < code.len() && code[pos] == JUMPDEST && !(pos < bits.len() && bits[pos]))
            == is_jump_destination(code, pos),
{
}

} // verus!
