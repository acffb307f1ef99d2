//! The notifications that wait to be handled.

use vstd::prelude::*;

verus! {

/// A stack that is emptied in one go.
pub struct Stack<T> {
    items: Vec<T>,
}

impl<T> View for Stack<T> {
    type V = Seq<T>;

    /// What was pushed and not drained yet, oldest first.
    closed spec fn view(&self) -> Seq<T> {
        self.items@
    }
}

impl<T> Stack<T> {
    /// A stack with nothing on it.
    pub fn new() -> (stack: Stack<T>)
        ensures
            stack@ == Seq::<T>::empty(),
    {
        Stack { items: Vec::new() }
    }

    /// Puts `item` on top.
    pub fn push(&mut self, item: T)
        ensures
            final(self)@ == old(self)@.push(item),
    {
        self.items.push(item);
    }

    /// Takes everything off the stack, from the top down.
    pub fn drain(&mut self) -> (items: Vec<T>)
        ensures
            items@ == old(self)@.reverse(),
            final(self)@ == Seq::<T>::empty(),
    {
        let mut drained: Vec<T> = Vec::new();
        while self.items.len() > 0
            invariant
                drained@ + self.items@.reverse() == old(self).items@.reverse(),
            decreases self.items@.len(),
        {
            let ghost before = self.items@;
            let ghost taken = drained@;
            if let Some(item) = self.items.pop() {
                drained.push(item);
            }
            assert(drained@ + self.items@.reverse() == taken + before.reverse());
        }
        drained
    }
}

} // verus!
