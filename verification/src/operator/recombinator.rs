//! Recombination as an operator.

use crate::crossover::{is_two_point_cross, is_uniform_cross, LinearCrossover};
use crate::operator::{Composable, Operator};
use rand::rngs::ThreadRng;
use vstd::prelude::*;

verus! {

/// A way to make one genome out of several.
pub trait Recombinator<Genomes> {
    /// The genome that comes out.
    type Output;

    /// The genomes that can be recombined.
    spec fn combines(&self, genomes: Genomes) -> bool;

    /// What holds between the parents and every child that can come out.
    spec fn crosses(&self, genomes: Genomes, child: Self::Output) -> bool;

    /// Recombines the genomes into a new one.
    fn recombine(&self, genomes: Genomes, rng: &mut ThreadRng) -> (child: Self::Output)
        requires
            self.combines(genomes),
        ensures
            self.crosses(genomes, child),
    ;
}

/// The operator that applies a recombinator.
pub struct Recombine<R> {
    pub recombinator: R,
}

impl<R> Recombine<R> {
    /// The operator that applies `recombinator`.
    pub fn new(recombinator: R) -> (made: Self)
        ensures
            made.recombinator == recombinator,
    {
        Recombine { recombinator }
    }
}

impl<R> Composable for Recombine<R> {

}

impl<G, R: Recombinator<G>> Operator<G> for Recombine<R> {
    type Output = R::Output;

    open spec fn accepts(&self, input: G) -> bool {
        self.recombinator.combines(input)
    }

    open spec fn relates(&self, input: G, output: R::Output) -> bool {
        self.recombinator.crosses(input, output)
    }

    fn apply(&self, input: G, rng: &mut ThreadRng) -> (output: R::Output) {
        self.recombinator.recombine(input, rng)
    }
}

/// Two-point crossover of two genomes of one length.
pub struct TwoPointXo;

impl<T: Copy> Recombinator<(Vec<T>, Vec<T>)> for TwoPointXo {
    type Output = Vec<T>;

    open spec fn combines(&self, genomes: (Vec<T>, Vec<T>)) -> bool {
        genomes.0@.len() == genomes.1@.len()
    }

    open spec fn crosses(&self, genomes: (Vec<T>, Vec<T>), child: Vec<T>) -> bool {
        is_two_point_cross(genomes.0@, genomes.1@, child@)
    }

    fn recombine(&self, genomes: (Vec<T>, Vec<T>), rng: &mut ThreadRng) -> (child: Vec<T>) {
        genomes.0.two_point_xo(&genomes.1, rng)
    }
}

/// Uniform crossover of two genomes of one length.
pub struct UniformXo;

impl<T: Copy> Recombinator<(Vec<T>, Vec<T>)> for UniformXo {
    type Output = Vec<T>;

    open spec fn combines(&self, genomes: (Vec<T>, Vec<T>)) -> bool {
        genomes.0@.len() == genomes.1@.len()
    }

    open spec fn crosses(&self, genomes: (Vec<T>, Vec<T>), child: Vec<T>) -> bool {
        is_uniform_cross(genomes.0@, genomes.1@, child@)
    }

    fn recombine(&self, genomes: (Vec<T>, Vec<T>), rng: &mut ThreadRng) -> (child: Vec<T>) {
        genomes.0.uniform_xo(&genomes.1, rng)
    }
}

} // verus!
