use vstd::prelude::*;

use crate::error::Chip8Error;

verus! {

/// How many return addresses the call stack holds.
pub const STACK_CAPACITY: usize = 32;

/// A bounded LIFO of return addresses.
///
/// `stack[0..=top]` holds the entries, bottom first; `top == -1` when empty.
pub struct Stack {
    pub stack: [u16; STACK_CAPACITY],
    pub top: i8,
}

/// What a push of `a` leaves on a stack holding `s`, or `None` where it is full.
pub open spec fn pushed(s: Seq<u16>, a: u16) -> Option<Seq<u16>> {
    if s.len() < STACK_CAPACITY {
        Some(s.push(a))
    } else {
        None
    }
}

/// The top of `s` and what a pop leaves, or `None` where `s` is empty.
pub open spec fn popped(s: Seq<u16>) -> Option<(u16, Seq<u16>)> {
    if s.len() > 0 {
        Some((s.last(), s.drop_last()))
    } else {
        None
    }
}

impl View for Stack {
    type V = Seq<u16>;

    /// The entries, bottom first.
    open spec fn view(&self) -> Seq<u16> {
        self.stack@.subrange(0, self.top + 1)
    }
}

impl Stack {
    pub open spec fn wf(&self) -> bool {
        -1 <= self.top < STACK_CAPACITY
    }

    /// An empty stack.
    pub fn new() -> (r: Stack)
        ensures
            r.wf(),
            r@ == Seq::<u16>::empty(),
    {
        Stack { stack: [0; STACK_CAPACITY], top: -1 }
    }

    /// Pushes `element`, or fails with `StackOverflow` and changes nothing
    /// where the stack is full.
    pub fn push(&mut self, element: u16) -> (r: Result<(), Chip8Error>)
        requires
            old(self).wf(),
        ensures
            final(self).wf(),
            match pushed(old(self)@, element) {
                Some(t) => r == Ok::<(), Chip8Error>(()) && final(self)@ == t,
                None => r == Err::<(), Chip8Error>(Chip8Error::StackOverflow) && *final(self)
                    == *old(self),
            },
    {
        if self.is_full() {
            Err(Chip8Error::StackOverflow)
        } else {
            self.top = self.top + 1;
            self.stack[self.top as usize] = element;
            assert(self@ =~= old(self)@.push(element));
            Ok(())
        }
    }

    /// Removes and returns the top entry, or fails with `StackUnderflow` and
    /// changes nothing where the stack is empty.
    pub fn pop(&mut self) -> (r: Result<u16, Chip8Error>)
        requires
            old(self).wf(),
        ensures
            final(self).wf(),
            match popped(old(self)@) {
                Some((a, t)) => r == Ok::<u16, Chip8Error>(a) && final(self)@ == t,
                None => r == Err::<u16, Chip8Error>(Chip8Error::StackUnderflow) && *final(self)
                    == *old(self),
            },
    {
        if self.is_empty() {
            Err(Chip8Error::StackUnderflow)
        } else {
            let element = self.stack[self.top as usize];
            self.top = self.top - 1;
            assert(self@ =~= old(self)@.drop_last());
            Ok(element)
        }
    }

    /// The top entry, or `StackUnderflow` where the stack is empty.
    pub fn top(&self) -> (r: Result<u16, Chip8Error>)
        requires
            self.wf(),
        ensures
            match popped(self@) {
                Some((a, _)) => r == Ok::<u16, Chip8Error>(a),
                None => r == Err::<u16, Chip8Error>(Chip8Error::StackUnderflow),
            },
    {
        if self.is_empty() {
            Err(Chip8Error::StackUnderflow)
        } else {
            Ok(self.stack[self.top as usize])
        }
    }

    /// How many return addresses the stack holds.
    pub fn depth(&self) -> (r: usize)
        requires
            self.wf(),
        ensures
            r == self@.len(),
    {
        (self.top + 1) as usize
    }

    /// Whether a push would overflow.
    pub fn is_full(&self) -> (r: bool)
        requires
            self.wf(),
        ensures
            r == (self@.len() == STACK_CAPACITY),
    {
        self.top == 31
    }

    /// Whether a pop would underflow.
    pub fn is_empty(&self) -> (r: bool)
        requires
            self.wf(),
        ensures
            r == (self@.len() == 0),
    {
        self.top == -1
    }
}

/// A pushed address is the one that the next pop returns, and the pop leaves
/// the stack as it was; a push onto a full stack overflows; a pop of an empty
/// stack underflows.
pub proof fn lemma_stack_round_trip(s: Seq<u16>, a: u16)
    requires
        s.len() <= STACK_CAPACITY,
    ensures
        s.len() < STACK_CAPACITY ==> pushed(s, a) == Some(s.push(a)) && popped(s.push(a)) == Some(
            (a, s),
        ),
        s.len() == STACK_CAPACITY ==> pushed(s, a) is None,
        popped(Seq::<u16>::empty()) is None,
{
    assert(s.push(a).drop_last() =~= s);
}

} // verus!
