//! Mutation as an operator.

use crate::bitstring::Bitstring;
use crate::mutation::{complement, LinearMutation};
use crate::random::Probability;
use crate::operator::{Composable, Operator};
use rand::rngs::ThreadRng;
use vstd::prelude::*;

verus! {

/// A way to make a changed copy of a genome.
pub trait Mutator<G> {
    /// What holds between a genome and every mutant that can come out.
    spec fn alters(&self, genome: G, mutant: G) -> bool;

    /// Mutates the genome.
    fn mutate(&self, genome: G, rng: &mut ThreadRng) -> (mutant: G)
        ensures
            self.alters(genome, mutant),
    ;
}

/// The operator that applies a mutator.
pub struct Mutate<M> {
    pub mutator: M,
}

impl<M> Mutate<M> {
    /// The operator that applies `mutator`.
    pub fn new(mutator: M) -> (made: Self)
        ensures
            made.mutator == mutator,
    {
        Mutate { mutator }
    }
}

impl<M> Composable for Mutate<M> {

}

impl<G, M: Mutator<G>> Operator<G> for Mutate<M> {
    type Output = G;

    open spec fn accepts(&self, input: G) -> bool {
        true
    }

    open spec fn relates(&self, input: G, output: G) -> bool {
        self.mutator.alters(input, output)
    }

    fn apply(&self, input: G, rng: &mut ThreadRng) -> (output: G) {
        self.mutator.mutate(input, rng)
    }
}

/// Flips each bit at a rate of one over the length of the genome.
pub struct WithOneOverLength;

impl Mutator<Bitstring> for WithOneOverLength {
    open spec fn alters(&self, genome: Bitstring, mutant: Bitstring) -> bool {
        &&& mutant@.len() == genome@.len()
        &&& genome@.len() <= 1 ==> mutant@ == complement(genome@)
    }

    fn mutate(&self, genome: Bitstring, rng: &mut ThreadRng) -> (mutant: Bitstring) {
        genome.mutate_one_over_length(rng)
    }
}

/// Flips each bit at a fixed rate.
pub struct WithRate {
    pub mutation_rate: Probability,
}

impl WithRate {
    /// Mutation at the given rate.
    pub fn new(mutation_rate: Probability) -> (made: Self)
        ensures
            made.mutation_rate == mutation_rate,
    {
        WithRate { mutation_rate }
    }
}

impl Mutator<Bitstring> for WithRate {
    open spec fn alters(&self, genome: Bitstring, mutant: Bitstring) -> bool {
        &&& mutant@.len() == genome@.len()
        &&& self.mutation_rate.numerator() == 0 ==> mutant@ == genome@
        &&& self.mutation_rate.numerator() == self.mutation_rate.denominator() ==> mutant@
            == complement(genome@)
    }

    fn mutate(&self, genome: Bitstring, rng: &mut ThreadRng) -> (mutant: Bitstring) {
        genome.mutate_with_rate(self.mutation_rate, rng)
    }
}

} // verus!
