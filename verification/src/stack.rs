//! A fixed-capacity stack with index-addressed slots.

use vstd::prelude::*;

verus! {

/// A sequence of at most `N` items. The bottom of the stack is index zero;
/// the top is the last item.
pub struct Stack<T, const N: usize> {
    inner: Vec<T>,
}

impl<T, const N: usize> View for Stack<T, N> {
    type V = Seq<T>;

    closed spec fn view(&self) -> Seq<T> {
        self.inner@
    }
}

impl<T, const N: usize> Stack<T, N> {
    /// The stack holds no more than its capacity.
    pub open spec fn wf(&self) -> bool {
        self@.len() <= N
    }

    /// An empty stack.
    pub fn new() -> (stack: Self)
        ensures
            stack@ == Seq::<T>::empty(),
    {
        Stack { inner: Vec::new() }
    }

    /// How many items the stack holds.
    pub fn len(&self) -> (n: usize)
        ensures
            n == self@.len(),
    {
        self.inner.len()
    }

    /// Whether the stack holds nothing.
    pub fn is_empty(&self) -> (b: bool)
        ensures
            b == (self@.len() == 0),
    {
        self.inner.len() == 0
    }

    /// How many more items fit.
    pub fn room(&self) -> (n: usize)
        requires
            self.wf(),
        ensures
            n == N - self@.len(),
    {
        N - self.inner.len()
    }

    /// Puts an item on top. The stack must have room for it.
    pub fn push(&mut self, value: T)
        requires
            old(self)@.len() < N,
        ensures
            final(self)@ == old(self)@.push(value),
    {
        self.inner.push(value);
    }

    /// Removes and returns the top item.
    pub fn pop(&mut self) -> (value: T)
        requires
            old(self)@.len() > 0,
        ensures
            value == old(self)@.last(),
            final(self)@ == old(self)@.drop_last(),
    {
        self.inner.pop().unwrap()
    }

    /// The item `offset` places below the top.
    pub fn peek(&self, offset: usize) -> (value: &T)
        requires
            offset < self@.len(),
        ensures
            *value == self@[self@.len() - 1 - offset],
    {
        &self.inner[self.inner.len() - 1 - offset]
    }

    /// The top item.
    pub fn last(&self) -> (value: &T)
        requires
            self@.len() > 0,
        ensures
            *value == self@.last(),
    {
        &self.inner[self.inner.len() - 1]
    }

    /// The item at an index, counted from the bottom.
    pub fn get(&self, index: usize) -> (value: &T)
        requires
            index < self@.len(),
        ensures
            *value == self@[index as int],
    {
        &self.inner[index]
    }

    /// Replaces the item at an index, counted from the bottom.
    pub fn set(&mut self, index: usize, value: T)
        requires
            index < old(self)@.len(),
        ensures
            final(self)@ == old(self)@.update(index as int, value),
    {
        self.inner[index] = value;
    }

    /// Drops every item from index `len` upwards.
    pub fn truncate(&mut self, len: usize)
        requires
            len <= old(self)@.len(),
        ensures
            final(self)@ == old(self)@.subrange(0, len as int),
    {
        self.inner.truncate(len);
    }

    /// Removes the items from index `at` upwards and returns them, bottom
    /// first.
    pub fn split_off(&mut self, at: usize) -> (upper: Vec<T>)
        requires
            at <= old(self)@.len(),
        ensures
            final(self)@ == old(self)@.subrange(0, at as int),
            upper@ == old(self)@.subrange(at as int, old(self)@.len() as int),
    {
        self.inner.split_off(at)
    }

    /// Puts `value` in the place of the item at `index` and returns that
    /// item.
    pub fn replace(&mut self, index: usize, value: T) -> (before: T)
        requires
            index < old(self)@.len(),
        ensures
            before == old(self)@[index as int],
            final(self)@ == old(self)@.update(index as int, value),
    {
        let mut held = value;
        core::mem::swap(&mut self.inner[index], &mut held);
        held
    }

    /// Removes and returns the item `offset` places below the top; the items
    /// above it move down by one.
    pub fn take(&mut self, offset: usize) -> (value: T)
        requires
            offset < old(self)@.len(),
        ensures
            value == old(self)@[old(self)@.len() - 1 - offset],
            final(self)@ == old(self)@.remove(old(self)@.len() - 1 - offset),
    {
        let index = self.inner.len() - 1 - offset;
        self.inner.remove(index)
    }
}

} // verus!
