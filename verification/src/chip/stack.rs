//! A last-in, first-out stack.

use vstd::prelude::*;

verus! {

/// A stack of values; the top is the last element of its view.
#[derive(Debug)]
pub struct Stack<T> {
    values: Vec<T>,
}

impl<T> View for Stack<T> {
    type V = Seq<T>;

    closed spec fn view(&self) -> Seq<T> {
        self.values@
    }
}

impl<T> Stack<T> {
    /// An empty stack.
    pub fn new() -> (s: Self)
        ensures
            s@ == Seq::<T>::empty(),
    {
        Stack { values: Vec::new() }
    }

    /// Puts `val` on top.
    pub fn push(&mut self, val: T)
        ensures
            final(self)@ == old(self)@.push(val),
    {
        self.values.push(val)
    }

    /// Takes the top value off. The stack must hold one.
    pub fn pop(&mut self) -> (val: T)
        requires
            old(self)@.len() > 0,
        ensures
            val == old(self)@.last(),
            final(self)@ == old(self)@.drop_last(),
    {
        self.values.pop().unwrap()
    }

    /// The number of values held.
    pub fn len(&self) -> (n: usize)
        ensures
            n == self@.len(),
    {
        self.values.len()
    }

    /// Whether the stack holds nothing.
    pub fn is_empty(&self) -> (b: bool)
        ensures
            b == (self@.len() == 0),
    {
        self.values.len() == 0
    }
}

} // verus!
