//! An individual: a genome paired with the results of testing it.

use rand::rngs::ThreadRng;
use vstd::prelude::*;

verus! {

/// `genome` is a value that the genome factory `make` can return.
pub open spec fn made_by<G, F: Fn(&mut ThreadRng) -> G>(make: F, genome: G) -> bool {
    exists|rng: &mut ThreadRng| #[trigger] call_ensures(make, (rng,), genome)
}

/// `results` is a value that the scoring function `run` can return for `genome`.
pub open spec fn tested_by<G, R, F: Fn(&G) -> R>(run: F, genome: G, results: R) -> bool {
    call_ensures(run, (&genome,), results)
}

/// A genome and the results of testing it. An individual is built once and
/// never changed: every operator returns a new one.
#[derive(Debug, Clone)]
pub struct Individual<G, R> {
    pub genome: G,
    pub test_results: R,
}

impl<G, R> Individual<G, R> {
    /// Draws a genome from `make_genome` and scores it with `run_tests`.
    pub fn new(
        make_genome: impl Fn(&mut ThreadRng) -> G,
        run_tests: impl Fn(&G) -> R,
        rng: &mut ThreadRng,
    ) -> (made: Self)
        requires
            forall|r: &mut ThreadRng| call_requires(make_genome, (r,)),
            forall|g: G| made_by(make_genome, g) ==> call_requires(run_tests, (&g,)),
        ensures
            made_by(make_genome, made.genome),
            tested_by(run_tests, made.genome, made.test_results),
    {
        let genome = make_genome(rng);
        assert(made_by(make_genome, genome));
        let test_results = run_tests(&genome);
        Individual { genome, test_results }
    }

    /// The genome.
    pub fn genome(&self) -> (genome: &G)
        ensures
            *genome == self.genome,
    {
        &self.genome
    }

    /// The results of testing the genome.
    pub fn test_results(&self) -> (results: &R)
        ensures
            *results == self.test_results,
    {
        &self.test_results
    }
}

} // verus!
