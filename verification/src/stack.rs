//! The return-address stack: eight slots addressed by a pointer that wraps.

use vstd::prelude::*;

verus! {

/// Number of slots of the return-address stack.
pub const STACK_SIZE: usize = 8;

/// Largest program-counter value: thirteen bits.
pub const PC_MASK: u16 = 0x1FFF;

/// What a return-address stack holds, seen from its top.
///
/// `ring[0]` is the value that the next pop returns, `ring[1]` the one after
/// it, and so on through all eight slots; after the eighth pop the sequence
/// repeats. Only the first `depth` of them were pushed and not yet popped.
pub struct StackView {
    pub ring: Seq<u16>,
    pub depth: nat,
}

impl StackView {
    /// Eight slots, at most eight live entries, every value a 13-bit address.
    pub open spec fn wf(self) -> bool {
        &&& self.ring.len() == STACK_SIZE
        &&& self.depth <= STACK_SIZE
        &&& forall|i: int| 0 <= i < self.ring.len() ==> self.ring[i] <= PC_MASK
    }

    /// The stack right after power-up: no live entry, every slot zero.
    pub open spec fn empty() -> StackView {
        StackView { ring: Seq::new(STACK_SIZE as nat, |i: int| 0u16), depth: 0 }
    }

    /// The live entries, oldest first.
    pub open spec fn live(self) -> Seq<u16> {
        Seq::new(self.depth, |i: int| self.ring[self.depth - 1 - i])
    }

    /// The value that a pop returns.
    pub open spec fn top(self) -> u16 {
        self.ring[0]
    }

    /// The stack after `value` was pushed: the deepest slot is overwritten.
    pub open spec fn push(self, value: u16) -> StackView {
        StackView {
            ring: seq![value] + self.ring.take(STACK_SIZE - 1),
            depth: if self.depth < STACK_SIZE {
                self.depth + 1
            } else {
                self.depth
            },
        }
    }

    /// The stack after a pop: the pointer moves down and the popped slot
    /// becomes the deepest one.
    pub open spec fn pop(self) -> StackView {
        StackView {
            ring: self.ring.skip(1).push(self.ring[0]),
            depth: if self.depth > 0 {
                (self.depth - 1) as nat
            } else {
                self.depth
            },
        }
    }
}

/// The return-address stack of the core.
pub struct ReturnStack {
    slots: [u16; 8],
    next: usize,
    depth: usize,
}

impl View for ReturnStack {
    type V = StackView;

    closed spec fn view(&self) -> StackView {
        StackView {
            ring: Seq::new(STACK_SIZE as nat, |i: int| self.slots@[(self.next + 7 - i) % 8]),
            depth: self.depth as nat,
        }
    }
}

impl ReturnStack {
    #[verifier::type_invariant]
    closed spec fn inv(&self) -> bool {
        &&& self.next < STACK_SIZE
        &&& self.depth <= STACK_SIZE
        &&& forall|i: int| 0 <= i < 8 ==> self.slots@[i] <= PC_MASK
    }

    /// An empty stack with every slot zero.
    pub fn new() -> (s: ReturnStack)
        ensures
            s@ == StackView::empty(),
    {
        let s = ReturnStack { slots: [0u16; 8], next: 0, depth: 0 };
        assert(s@.ring =~= StackView::empty().ring);
        s
    }

    /// Number of live entries.
    pub fn len(&self) -> (n: usize)
        ensures
            n == self@.depth,
            self@.wf(),
    {
        proof {
            use_type_invariant(self);
        }
        self.depth
    }

    /// The `index`-th live entry, counted from the oldest.
    pub fn get(&self, index: usize) -> (value: u16)
        requires
            index < self@.depth,
        ensures
            value == self@.live()[index as int],
            self@.wf(),
    {
        proof {
            use_type_invariant(self);
        }
        let back: usize = self.depth - index;
        let slot: usize = (self.next + 8 - back) % 8;
        self.slots[slot]
    }

    /// Pushes `value`; returns whether a live entry was overwritten.
    pub fn push(&mut self, value: u16) -> (overflow: bool)
        requires
            value <= PC_MASK,
        ensures
            final(self)@ == old(self)@.push(value),
            overflow == (old(self)@.depth == STACK_SIZE),
            old(self)@.wf(),
            final(self)@.wf(),
    {
        proof {
            use_type_invariant(&*self);
        }
        let overflow = self.depth == STACK_SIZE;
        self.slots[self.next] = value;
        self.next = (self.next + 1) % 8;
        if !overflow {
            self.depth = self.depth + 1;
        }
        assert(self@.ring =~= old(self)@.push(value).ring);
        overflow
    }

    /// Pops the top value; on an empty stack the pointer wraps and the value
    /// of the slot it reaches is returned.
    pub fn pop(&mut self) -> (value: u16)
        ensures
            value == old(self)@.top(),
            final(self)@ == old(self)@.pop(),
            old(self)@.wf(),
            final(self)@.wf(),
    {
        proof {
            use_type_invariant(&*self);
        }
        self.next = (self.next + 7) % 8;
        if self.depth > 0 {
            self.depth = self.depth - 1;
        }
        assert(self@.ring =~= old(self)@.pop().ring);
        self.slots[self.next]
    }
}

/// A value that is pushed and popped right away comes back, whatever the
/// stack held, even when the push overwrote the deepest slot.
pub proof fn lemma_push_pop_value(s: StackView, value: u16)
    requires
        s.wf(),
        value <= PC_MASK,
    ensures
        s.push(value).top() == value,
        s.push(value).pop().wf(),
{
}

/// On a stack that is not full, a push followed by a pop leaves the number of
/// live entries, and the entries themselves, as they were.
pub proof fn lemma_push_pop_restores(s: StackView, value: u16)
    requires
        s.wf(),
        value <= PC_MASK,
        s.depth < STACK_SIZE,
    ensures
        s.push(value).pop().depth == s.depth,
        s.push(value).pop().live() == s.live(),
{
}

} // verus!
