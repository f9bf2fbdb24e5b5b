//! Makers of one child from a population.

pub mod two_point_xo_mutate;

use crate::generation::Population;
use rand::rngs::ThreadRng;
use vstd::prelude::*;

verus! {

/// A recipe that makes one new individual from a population, with parents
/// chosen by a selector.
pub trait ChildMaker<P: Population, S> {
    /// The populations from which a child can be made.
    spec fn accepts(&self, population: &P) -> bool;

    /// What holds between a population and every child made from it.
    spec fn relates(&self, population: &P, child: P::Individual) -> bool;

    /// Makes one child. The population is left as it was.
    fn make_child(&self, rng: &mut ThreadRng, population: &P, selector: &S) -> (child:
        P::Individual)
        requires
            self.accepts(population),
        ensures
            self.relates(population, child),
    ;
}

} // verus!
