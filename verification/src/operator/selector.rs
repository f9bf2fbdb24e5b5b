//! Selection of one individual from a population.

use crate::individual::Individual;
use crate::operator::{Composable, Operator};
use crate::population::{best_index, is_best_of};
use crate::random::below;
use crate::test_results::TestResults;
use rand::rngs::ThreadRng;
use vstd::prelude::*;

verus! {

/// A strategy that picks one individual of a population. The population is
/// only read: nothing is removed from it, and one draw knows nothing of
/// another.
pub trait Selector<I> {
    /// Picks one individual of a population that is not empty.
    fn select<'pop>(&self, population: &'pop Vec<I>, rng: &mut ThreadRng) -> (chosen: &'pop I)
        requires
            population@.len() > 0,
        ensures
            population@.contains(*chosen),
    ;
}

/// Picks every individual with the same probability.
pub struct Random;

impl<I> Selector<I> for Random {
    fn select<'pop>(&self, population: &'pop Vec<I>, rng: &mut ThreadRng) -> (chosen: &'pop I) {
        let index = below(population.len(), rng);
        &population[index]
    }
}

/// Picks the individual with the largest aggregate; of several, the last.
pub struct Best;

impl<G> Selector<Individual<G, TestResults>> for Best {
    fn select<'pop>(
        &self,
        population: &'pop Vec<Individual<G, TestResults>>,
        rng: &mut ThreadRng,
    ) -> (chosen: &'pop Individual<G, TestResults>)
        ensures
            is_best_of(population@, *chosen),
    {
        let index = best_index(population);
        &population[index]
    }
}

/// The operator that applies a selector to a population.
pub struct Select<'sel, S> {
    pub selector: &'sel S,
}

impl<'sel, S> Select<'sel, S> {
    /// The operator that applies `selector`.
    pub fn new(selector: &'sel S) -> (made: Self)
        ensures
            made.selector == selector,
    {
        Select { selector }
    }
}

impl<'sel, S> Composable for Select<'sel, S> {

}

impl<'sel, 'pop, I, S: Selector<I>> Operator<&'pop Vec<I>> for Select<'sel, S> {
    type Output = &'pop I;

    open spec fn accepts(&self, input: &'pop Vec<I>) -> bool {
        input@.len() > 0
    }

    open spec fn relates(&self, input: &'pop Vec<I>, output: &'pop I) -> bool {
        input@.contains(*output)
    }

    fn apply(&self, input: &'pop Vec<I>, rng: &mut ThreadRng) -> (output: &'pop I) {
        self.selector.select(input, rng)
    }
}

} // verus!
