//! The operator that starts a pipeline from a value already at hand.

use crate::operator::{Composable, Operator};
use rand::rngs::ThreadRng;
use vstd::prelude::*;

verus! {

/// Hands out the value it holds, whatever the input.
pub struct Identity<T> {
    pub value: T,
}

impl<T> Identity<T> {
    /// An operator that hands out `value`.
    pub fn new(value: T) -> (identity: Self)
        ensures
            identity.value == value,
    {
        Identity { value }
    }
}

impl<T> Composable for Identity<T> {

}

impl<T: Copy> Operator<()> for Identity<T> {
    type Output = T;

    open spec fn accepts(&self, input: ()) -> bool {
        true
    }

    open spec fn relates(&self, input: (), output: T) -> bool {
        output == self.value
    }

    fn apply(&self, input: (), rng: &mut ThreadRng) -> (output: T) {
        self.value
    }
}

} // verus!
