//! One typed stack of the machine.

use vstd::prelude::*;

verus! {

/// Why a stack could not do what was asked of it.
#[derive(Clone, Copy, Debug, PartialEq, Eq, Structural)]
pub enum StackError {
    /// Fewer items were present than were asked for.
    Underflow { num_requested: usize, num_present: usize },
    /// The machine had no room for another item.
    Overflow,
}

/// A last-in-first-out sequence of values of one kind. The view lists the
/// values from the bottom up, so that the top is the last.
#[derive(Debug)]
pub struct Stack<T> {
    values: Vec<T>,
}

impl<T> View for Stack<T> {
    type V = Seq<T>;

    closed spec fn view(&self) -> Seq<T> {
        self.values@
    }
}

impl<T> Stack<T> {
    /// A stack without values.
    pub fn new() -> (stack: Self)
        ensures
            stack@ == Seq::<T>::empty(),
    {
        Stack { values: Vec::new() }
    }

    /// A stack that holds `values`, the last of them on top.
    pub fn from_values(values: Vec<T>) -> (stack: Self)
        ensures
            stack@ == values@,
    {
        Stack { values }
    }

    /// The values from the bottom up.
    pub fn values(&self) -> (values: &Vec<T>)
        ensures
            values@ == self@,
    {
        &self.values
    }

    /// The number of values.
    pub fn size(&self) -> (n: usize)
        ensures
            n == self@.len(),
    {
        self.values.len()
    }

    /// Whether there is no value.
    pub fn is_empty(&self) -> (empty: bool)
        ensures
            empty == (self@.len() == 0),
    {
        self.values.len() == 0
    }

    /// The value on top, without removing it.
    pub fn top(&self) -> (top: Result<&T, StackError>)
        ensures
            self@.len() >= 1 ==> top == Ok::<&T, StackError>(&self@.last()),
            self@.len() == 0 ==> top == Err::<&T, StackError>(
                StackError::Underflow { num_requested: 1, num_present: 0 },
            ),
    {
        let len = self.values.len();
        if len == 0 {
            Err(StackError::Underflow { num_requested: 1, num_present: 0 })
        } else {
            Ok(&self.values[len - 1])
        }
    }

    /// The two values on top, the topmost first, without removing them.
    pub fn top2(&self) -> (top: Result<(&T, &T), StackError>)
        ensures
            self@.len() >= 2 ==> top == Ok::<(&T, &T), StackError>(
                (&self@.last(), &self@[self@.len() - 2]),
            ),
            self@.len() < 2 ==> top == Err::<(&T, &T), StackError>(
                StackError::Underflow { num_requested: 2, num_present: self@.len() as usize },
            ),
    {
        let len = self.values.len();
        if len < 2 {
            Err(StackError::Underflow { num_requested: 2, num_present: len })
        } else {
            Ok((&self.values[len - 1], &self.values[len - 2]))
        }
    }

    /// Removes the value on top and returns it. An empty stack stays empty.
    pub fn pop(&mut self) -> (popped: Result<T, StackError>)
        ensures
            old(self)@.len() >= 1 ==> popped == Ok::<T, StackError>(old(self)@.last())
                && final(self)@ == old(self)@.drop_last(),
            old(self)@.len() == 0 ==> popped == Err::<T, StackError>(
                StackError::Underflow { num_requested: 1, num_present: 0 },
            ) && final(self)@ == old(self)@,
    {
        match self.values.pop() {
            Some(value) => Ok(value),
            None => Err(StackError::Underflow { num_requested: 1, num_present: 0 }),
        }
    }

    /// Removes `count` values from the top and puts `value` in their place.
    pub(crate) fn replace(&mut self, count: usize, value: T)
        requires
            count <= old(self)@.len(),
        ensures
            final(self)@ == old(self)@.take(old(self)@.len() - count).push(value),
    {
        let keep = self.values.len() - count;
        self.values.truncate(keep);
        self.values.push(value);
    }

    /// Puts `value` on top. Whether the machine has room is for the machine
    /// to check.
    pub(crate) fn push(&mut self, value: T)
        ensures
            final(self)@ == old(self)@.push(value),
    {
        self.values.push(value);
    }
}

} // verus!
