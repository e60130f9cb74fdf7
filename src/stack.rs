use vstd::prelude::*;
use ethnum::U256;

verus! {

/// Depth beyond which a call frame's stack overflows.
pub const STACK_LIMIT: usize = 1024;

/// The stack after exchanging the top with the element `n` positions below it (1-based, so
/// `n == 1` exchanges the top with itself).
pub open spec fn swap_spec(s: Seq<U256>, n: int) -> Seq<U256> {
    s.update(s.len() - 1, s[s.len() - n]).update(s.len() - n, s[s.len() - 1])
}

/// The stack after pushing a copy of the element `n` positions from the top (1-based).
pub open spec fn dup_spec(s: Seq<U256>, n: int) -> Seq<U256> {
    s.push(s[s.len() - n])
}

/// The element `n` positions below the top (0-based), if there is one.
pub open spec fn nth_from_top(s: Seq<U256>, n: int) -> Option<U256> {
    if 0 <= n < s.len() {
        Some(s[s.len() - 1 - n])
    } else {
        None
    }
}

/// The stack after pushing each of `vs` in order.
pub open spec fn push_all(s: Seq<U256>, vs: Seq<U256>) -> Seq<U256>
    decreases vs.len(),
{
    if vs.len() == 0 {
        s
    } else {
        push_all(s, vs.drop_last()).push(vs.last())
    }
}

/// The values that `k` pops return, in the order they come.
pub open spec fn popped(s: Seq<U256>, k: nat) -> Seq<U256>
    decreases k,
{
    if k == 0 || s.len() == 0 {
        Seq::empty()
    } else {
        seq![s.last()] + popped(s.drop_last(), (k - 1) as nat)
    }
}

/// A stack of 256-bit words; the last element of the vector is the top.
pub struct Stack {
    data: Vec<U256>,
}

impl View for Stack {
    type V = Seq<U256>;

    closed spec fn view(&self) -> Seq<U256> {
        self.data@
    }
}

impl Stack {
    /// An empty stack.
    pub fn new() -> (r: Stack)
        ensures
            r@ == Seq::<U256>::empty(),
    {
        Stack { data: Vec::new() }
    }

    /// The elements, bottom first.
    pub fn data(&self) -> (r: &Vec<U256>)
        ensures
            r@ == self@,
    {
        &self.data
    }

    /// Puts a value on top.
    pub fn push(&mut self, value: U256)
        ensures
            final(self)@ == old(self)@.push(value),
    {
        self.data.push(value);
    }

    /// Takes the top value off; `None` on an empty stack.
    pub fn pop(&mut self) -> (r: Option<U256>)
        ensures
            old(self)@.len() == 0 ==> r is None && final(self)@ == old(self)@,
            old(self)@.len() > 0 ==> r == Some(old(self)@.last()) && final(self)@ == old(
                self,
            )@.drop_last(),
    {
        self.data.pop()
    }

    /// Number of elements.
    pub fn len(&self) -> (r: usize)
        ensures
            r == self@.len(),
    {
        self.data.len()
    }

    /// Whether the stack holds `STACK_LIMIT` elements or more, so that a push would overflow.
    pub fn is_full(&self) -> (r: bool)
        ensures
            r == (self@.len() >= STACK_LIMIT),
    {
        self.data.len() >= STACK_LIMIT
    }

    /// Exchanges the top with the element `n` positions below it; `n` starts from 1.
    pub fn swap(&mut self, n: usize)
        requires
            1 <= n <= old(self)@.len(),
        ensures
            final(self)@ == swap_spec(old(self)@, n as int),
    {
        let len = self.data.len();
        let last = self.data[len - 1];
        let num = self.data[len - n];
        self.data.set(len - 1, num);
        self.data.set(len - n, last);
    }

    /// Pushes a copy of the element `n` positions from the top; `n` starts from 1.
    pub fn dup(&mut self, n: usize)
        requires
            1 <= n <= old(self)@.len(),
        ensures
            final(self)@ == dup_spec(old(self)@, n as int),
            final(self)@.len() == old(self)@.len() + 1,
            final(self)@.subrange(0, old(self)@.len() as int) == old(self)@,
    {
        let len = self.data.len();
        let num = self.data[len - n];
        self.data.push(num);
        proof {
            assert(self@.subrange(0, old(self)@.len() as int) =~= old(self)@);
        }
    }

    /// The top value, without removing it; `None` on an empty stack.
    pub fn peek(&self) -> (r: Option<&U256>)
        ensures
            r matches Some(v) ==> self@.len() > 0 && *v == self@.last(),
            r is None <==> self@.len() == 0,
    {
        if self.data.len() == 0 {
            None
        } else {
            Some(&self.data[self.data.len() - 1])
        }
    }

    /// The element `n` positions below the top; `n` starts from 0, unlike `swap` and `dup`.
    pub fn back(&self, n: usize) -> (r: Option<&U256>)
        ensures
            r matches Some(v) ==> nth_from_top(self@, n as int) == Some(*v),
            r is None <==> nth_from_top(self@, n as int) is None,
    {
        let len = self.data.len();
        if n < len {
            Some(&self.data[len - n - 1])
        } else {
            None
        }
    }
}

impl Default for Stack {
    fn default() -> (r: Stack)
        ensures
            r@ == Seq::<U256>::empty(),
    {
        Stack::new()
    }
}

/// Pushing `v1, ..., vk` with no pop between and then popping `k` times gives `vk, ..., v1`.
pub proof fn lemma_lifo(s: Seq<U256>, vs: Seq<U256>)
    ensures
        popped(push_all(s, vs), vs.len()).len() == vs.len(),
        forall|i: int|
            0 <= i < vs.len() ==> #[trigger] popped(push_all(s, vs), vs.len())[i] == vs[vs.len()
                - 1 - i],
    decreases vs.len(),
{
    if vs.len() > 0 {
        let rest = vs.drop_last();
        lemma_lifo(s, rest);
        let t = push_all(s, vs);
        assert(t.drop_last() =~= push_all(s, rest));
        assert forall|i: int| 0 <= i < vs.len() implies #[trigger] popped(t, vs.len())[i]
            == vs[vs.len() - 1 - i] by {
            if i > 0 {
                assert(popped(t, vs.len())[i] == popped(push_all(s, rest), rest.len())[i - 1]);
            }
        }
    }
}

/// Swapping with the same position twice restores the stack.
pub proof fn lemma_swap_involution(s: Seq<U256>, n: int)
    requires
        1 <= n <= s.len(),
    ensures
        swap_spec(swap_spec(s, n), n) == s,
{
    assert(swap_spec(swap_spec(s, n), n) =~= s);
}

/// A dup grows the stack by one and keeps every earlier position.
pub proof fn lemma_dup_growth(s: Seq<U256>, n: int)
    requires
        1 <= n <= s.len(),
    ensures
        dup_spec(s, n).len() == s.len() + 1,
        forall|i: int| 0 <= i < s.len() ==> #[trigger] dup_spec(s, n)[i] == s[i],
        dup_spec(s, n).last() == s[s.len() - n],
{
}

} // verus!
