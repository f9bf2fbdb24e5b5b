//! The operator that turns a finished genome into an individual.

use crate::bitstring::{scored_by, scores_length, Bitstring};
use crate::individual::Individual;
use crate::operator::{Composable, Operator};
use crate::test_results::TestResults;
use rand::rngs::ThreadRng;
use vstd::prelude::*;

verus! {

/// A way to test a genome.
pub trait Scorer<G> {
    /// The genomes that can be tested.
    spec fn takes(&self, genome: G) -> bool;

    /// What holds between a genome and every result of testing it.
    spec fn grades(&self, genome: G, results: TestResults) -> bool;

    /// Tests one genome.
    fn score(&self, genome: &G) -> (results: TestResults)
        requires
            self.takes(*genome),
        ensures
            self.grades(*genome, results),
    ;
}

/// Scores a bitstring with a function from bits to one score per test case,
/// and adds the scores up.
pub struct BitstringScorer<'sc, Sc> {
    pub scorer: &'sc Sc,
}

impl<'sc, Sc> BitstringScorer<'sc, Sc> {
    /// A scorer that applies `scorer`.
    pub fn new(scorer: &'sc Sc) -> (made: Self)
        ensures
            made.scorer == scorer,
    {
        BitstringScorer { scorer }
    }
}

impl<'sc, Sc: Fn(&[bool]) -> Vec<i64>> BitstringScorer<'sc, Sc> {
    /// A genome is taken if the scoring function takes every genome of its
    /// length. This spells out [`Scorer::takes`] for a caller whose scoring
    /// function is a function or a closure of its own.
    pub proof fn lemma_takes(&self, genome: Bitstring)
        requires
            scores_length(*self.scorer, genome@.len()),
        ensures
            self.takes(genome),
    {
    }

    /// The results hold the scores that the scoring function gave for the
    /// genome. This spells out [`Scorer::grades`] for a caller whose scoring
    /// function is a function or a closure of its own.
    pub proof fn lemma_grades(&self, genome: Bitstring, results: TestResults)
        requires
            self.grades(genome, results),
        ensures
            scored_by(*self.scorer, genome@, results@),
    {
    }
}

impl<'sc, Sc: Fn(&[bool]) -> Vec<i64>> Scorer<Bitstring> for BitstringScorer<'sc, Sc> {
    open spec fn takes(&self, genome: Bitstring) -> bool {
        scores_length(*self.scorer, genome@.len())
    }

    open spec fn grades(&self, genome: Bitstring, results: TestResults) -> bool {
        scored_by(*self.scorer, genome@, results@)
    }

    fn score(&self, genome: &Bitstring) -> (results: TestResults) {
        TestResults::new((self.scorer)(genome.as_slice()))
    }
}

/// Makes a genome with `genome_maker`, tests it with `scorer`, and pairs the
/// two.
pub struct GenomeScorer<GM, S> {
    pub genome_maker: GM,
    pub scorer: S,
}

impl<GM, S> GenomeScorer<GM, S> {
    /// `genome_maker`, followed by testing with `scorer`.
    pub fn new(genome_maker: GM, scorer: S) -> (made: Self)
        ensures
            made.genome_maker == genome_maker,
            made.scorer == scorer,
    {
        GenomeScorer { genome_maker, scorer }
    }
}

impl<GM, S> Composable for GenomeScorer<GM, S> {

}

impl<A, GM: Operator<A>, S: Scorer<GM::Output>> Operator<A> for GenomeScorer<GM, S> {
    type Output = Individual<GM::Output, TestResults>;

    open spec fn accepts(&self, input: A) -> bool {
        &&& self.genome_maker.accepts(input)
        &&& forall|genome: GM::Output| #[trigger]
            self.genome_maker.relates(input, genome) ==> self.scorer.takes(genome)
    }

    open spec fn relates(&self, input: A, output: Individual<GM::Output, TestResults>) -> bool {
        &&& self.genome_maker.relates(input, output.genome)
        &&& self.scorer.grades(output.genome, output.test_results)
    }

    fn apply(&self, input: A, rng: &mut ThreadRng) -> (output: Individual<GM::Output, TestResults>) {
        let genome = self.genome_maker.apply(input, rng);
        let test_results = self.scorer.score(&genome);
        Individual { genome, test_results }
    }
}

} // verus!
