//! Operators: the pieces from which a pipeline that makes one child is put
//! together.

pub mod composable;
pub mod genome_extractor;
pub mod genome_scorer;
pub mod identity;
pub mod mutator;
pub mod recombinator;
pub mod selector;

pub use composable::Composable;

use rand::rngs::ThreadRng;
use vstd::prelude::*;

verus! {

/// Something that turns an input into an output, drawing from a random
/// stream as it goes.
pub trait Operator<Input>: Composable {
    /// What the operator produces.
    type Output;

    /// The inputs on which the operator may be applied.
    spec fn accepts(&self, input: Input) -> bool;

    /// What holds between an input and every output that the operator can
    /// produce from it.
    spec fn relates(&self, input: Input, output: Self::Output) -> bool;

    /// Applies the operator once.
    fn apply(&self, input: Input, rng: &mut ThreadRng) -> (output: Self::Output)
        requires
            self.accepts(input),
        ensures
            self.relates(input, output),
    ;
}

} // verus!
