//! Combinators that build one operator out of others.

use crate::operator::Operator;
use rand::rngs::ThreadRng;
use vstd::prelude::*;

verus! {

/// What can be chained with other operators. The chain is a plain value:
/// it is built once and applied as often as needed.
pub trait Composable: Sized {
    /// This operator, followed by `op` on its output.
    fn and_then<Op>(self, op: Op) -> (chain: Then<Self, Op>)
        ensures
            chain.first == self,
            chain.second == op,
    {
        Then::new(self, op)
    }

    /// This operator, followed by `op` on each half of its output.
    fn then_map<Op>(self, op: Op) -> (chain: Then<Self, MapPair<Op>>)
        ensures
            chain.first == self,
            chain.second.each == op,
    {
        Then::new(self, MapPair::new(op))
    }

    /// This operator, applied twice to the same input.
    fn apply_twice(self) -> (twice: ApplyTwice<Self>)
        ensures
            twice.inner == self,
    {
        ApplyTwice::new(self)
    }
}

/// Two operators in sequence: the output of the first is the input of the
/// second.
pub struct Then<F, G> {
    pub first: F,
    pub second: G,
}

impl<F, G> Then<F, G> {
    /// `first`, then `second`.
    pub fn new(first: F, second: G) -> (chain: Self)
        ensures
            chain.first == first,
            chain.second == second,
    {
        Then { first, second }
    }
}

impl<F, G> Composable for Then<F, G> {

}

impl<A, F: Operator<A>, G: Operator<F::Output>> Operator<A> for Then<F, G> {
    type Output = G::Output;

    open spec fn accepts(&self, input: A) -> bool {
        &&& self.first.accepts(input)
        &&& forall|middle: F::Output| #[trigger]
            self.first.relates(input, middle) ==> self.second.accepts(middle)
    }

    open spec fn relates(&self, input: A, output: G::Output) -> bool {
        exists|middle: F::Output| #[trigger]
            self.first.relates(input, middle) && self.second.relates(middle, output)
    }

    fn apply(&self, input: A, rng: &mut ThreadRng) -> (output: G::Output) {
        let middle = self.first.apply(input, rng);
        let output = self.second.apply(middle, rng);
        assert(self.first.relates(input, middle) && self.second.relates(middle, output));
        output
    }
}

/// One operator applied to both halves of a pair.
pub struct MapPair<F> {
    pub each: F,
}

impl<F> MapPair<F> {
    /// `each`, on both halves.
    pub fn new(each: F) -> (map: Self)
        ensures
            map.each == each,
    {
        MapPair { each }
    }
}

impl<F> Composable for MapPair<F> {

}

impl<A, F: Operator<A>> Operator<(A, A)> for MapPair<F> {
    type Output = (F::Output, F::Output);

    open spec fn accepts(&self, input: (A, A)) -> bool {
        self.each.accepts(input.0) && self.each.accepts(input.1)
    }

    open spec fn relates(&self, input: (A, A), output: (F::Output, F::Output)) -> bool {
        self.each.relates(input.0, output.0) && self.each.relates(input.1, output.1)
    }

    fn apply(&self, input: (A, A), rng: &mut ThreadRng) -> (output: (F::Output, F::Output)) {
        let (one, other) = input;
        let first = self.each.apply(one, rng);
        let second = self.each.apply(other, rng);
        (first, second)
    }
}

/// One operator applied twice to the same input: two independent draws.
pub struct ApplyTwice<F> {
    pub inner: F,
}

impl<F> ApplyTwice<F> {
    /// `inner`, twice.
    pub fn new(inner: F) -> (twice: Self)
        ensures
            twice.inner == inner,
    {
        ApplyTwice { inner }
    }
}

impl<F> Composable for ApplyTwice<F> {

}

impl<A: Copy, F: Operator<A>> Operator<A> for ApplyTwice<F> {
    type Output = (F::Output, F::Output);

    open spec fn accepts(&self, input: A) -> bool {
        self.inner.accepts(input)
    }

    open spec fn relates(&self, input: A, output: (F::Output, F::Output)) -> bool {
        self.inner.relates(input, output.0) && self.inner.relates(input, output.1)
    }

    fn apply(&self, input: A, rng: &mut ThreadRng) -> (output: (F::Output, F::Output)) {
        let first = self.inner.apply(input, rng);
        let second = self.inner.apply(input, rng);
        (first, second)
    }
}

} // verus!
