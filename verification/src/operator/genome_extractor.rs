//! The operator that copies the genome out of an individual.

use crate::individual::Individual;
use crate::operator::{Composable, Operator};
use rand::rngs::ThreadRng;
use vstd::prelude::*;

verus! {

/// Copies the genome of an individual, so that what is done to the copy
/// leaves the parent as it was.
pub struct GenomeExtractor;

impl Composable for GenomeExtractor {

}

impl<'a, G: Clone, R> Operator<&'a Individual<G, R>> for GenomeExtractor {
    type Output = G;

    open spec fn accepts(&self, input: &'a Individual<G, R>) -> bool {
        true
    }

    open spec fn relates(&self, input: &'a Individual<G, R>, output: G) -> bool {
        cloned(input.genome, output)
    }

    fn apply(&self, input: &'a Individual<G, R>, rng: &mut ThreadRng) -> (output: G) {
        input.genome.clone()
    }
}

} // verus!
