//! Children by two-point crossover followed by mutation.

use crate::bitstring::{scored_by, scores_length, Bitstring};
use crate::child_maker::ChildMaker;
use crate::individual::Individual;
use crate::mutation::complement;
use crate::operator::genome_extractor::GenomeExtractor;
use crate::operator::genome_scorer::{BitstringScorer, GenomeScorer};
use crate::operator::mutator::{Mutate, WithOneOverLength};
use crate::operator::recombinator::{Recombine, TwoPointXo};
use crate::operator::selector::{Select, Selector};
use crate::operator::{Composable, Operator};
use crate::test_results::TestResults;
use rand::rngs::ThreadRng;
use vstd::prelude::*;

verus! {

/// Every genome of the population has `len` bits.
pub open spec fn all_of_length(
    population: Seq<Individual<Bitstring, TestResults>>,
    len: nat,
) -> bool {
    forall|i: int| 0 <= i < population.len() ==> (#[trigger] population[i]).genome@.len() == len
}

/// `genome` is the genome of a member of the population.
pub open spec fn holds_genome(
    population: Seq<Individual<Bitstring, TestResults>>,
    genome: Seq<bool>,
) -> bool {
    exists|i: int| 0 <= i < population.len() && (#[trigger] population[i]).genome@ == genome
}

/// `genome` is the complement of the genome of a member of the population.
pub open spec fn complements_a_member(
    population: Seq<Individual<Bitstring, TestResults>>,
    genome: Seq<bool>,
) -> bool {
    exists|i: int|
        0 <= i < population.len() && genome == complement((#[trigger] population[i]).genome@)
}

/// What holds of the genome of every child of the population: it has the
/// length of its parents. Genomes of two bits or more can come out of
/// crossover and mutation as any genome of that length. A genome of one bit
/// is always flipped, and so comes out as the complement of a parent.
pub open spec fn bred_from(population: Seq<Individual<Bitstring, TestResults>>, genome: Seq<bool>) -> bool {
    &&& genome.len() == population[0].genome@.len()
    &&& genome.len() <= 1 ==> complements_a_member(population, genome)
}

/// Makes a child by selecting two parents, crossing copies of their genomes
/// at two points, mutating the result at a rate of one over its length, and
/// scoring what comes out.
#[derive(Clone)]
pub struct TwoPointXoMutate<Sc> {
    pub scorer: Sc,
}

impl<Sc> TwoPointXoMutate<Sc> {
    /// A child maker that scores its children with `scorer`.
    pub fn new(scorer: Sc) -> (made: Self)
        ensures
            made.scorer == scorer,
    {
        Self { scorer }
    }
}

impl<Sc: Fn(&[bool]) -> Vec<i64>> TwoPointXoMutate<Sc> {
    /// A population is accepted if it is not empty, its genomes are all of
    /// one length, and the scorer takes genomes of that length. This spells
    /// out [`ChildMaker::accepts`] for a caller whose scorer is a function
    /// or a closure of its own.
    pub proof fn lemma_accepts<S: Selector<Individual<Bitstring, TestResults>>>(
        &self,
        population: &Vec<Individual<Bitstring, TestResults>>,
        selector: &S,
    )
        requires
            population@.len() > 0,
            all_of_length(population@, population@[0].genome@.len()),
            scores_length(self.scorer, population@[0].genome@.len()),
        ensures
            ChildMaker::<Vec<Individual<Bitstring, TestResults>>, S>::accepts(self, population),
    {
    }

    /// A child has the length of the genomes of the population, and the
    /// results that the scorer gives for its genome. This spells out
    /// [`ChildMaker::relates`] for a caller whose scorer is a function or a
    /// closure of its own.
    pub proof fn lemma_relates<S: Selector<Individual<Bitstring, TestResults>>>(
        &self,
        population: &Vec<Individual<Bitstring, TestResults>>,
        selector: &S,
        child: Individual<Bitstring, TestResults>,
    )
        requires
            ChildMaker::<Vec<Individual<Bitstring, TestResults>>, S>::relates(
                self,
                population,
                child,
            ),
        ensures
            bred_from(population@, child.genome@),
            scored_by(self.scorer, child.genome@, child.test_results@),
    {
    }
}

impl<S, Sc> ChildMaker<Vec<Individual<Bitstring, TestResults>>, S> for TwoPointXoMutate<Sc> where
    S: Selector<Individual<Bitstring, TestResults>>,
    Sc: Fn(&[bool]) -> Vec<i64>,
 {
    open spec fn accepts(&self, population: &Vec<Individual<Bitstring, TestResults>>) -> bool {
        &&& population@.len() > 0
        &&& all_of_length(population@, population@[0].genome@.len())
        &&& scores_length(self.scorer, population@[0].genome@.len())
    }

    open spec fn relates(
        &self,
        population: &Vec<Individual<Bitstring, TestResults>>,
        child: Individual<Bitstring, TestResults>,
    ) -> bool {
        &&& bred_from(population@, child.genome@)
        &&& scored_by(self.scorer, child.genome@, child.test_results@)
    }

    fn make_child(
        &self,
        rng: &mut ThreadRng,
        population: &Vec<Individual<Bitstring, TestResults>>,
        selector: &S,
    ) -> (child: Individual<Bitstring, TestResults>) {
        let ghost len = population@[0].genome@.len();
        let selector = Select::new(selector);
        let make_mutated_genome = selector.apply_twice().then_map(GenomeExtractor).and_then(
            Recombine::new(TwoPointXo),
        ).and_then(Mutate::new(WithOneOverLength));

        proof {
            let mutated = make_mutated_genome;
            let crossed = mutated.first;
            let copied = crossed.first;
            let chosen = copied.first;
            let members = population@;
            assert forall|genomes: (Bitstring, Bitstring)| #[trigger]
                copied.relates(population, genomes) implies genomes.0@.len() == len
                && genomes.1@.len() == len && holds_genome(members, genomes.0@) by {
                let pair = choose|
                    pair: (&Individual<Bitstring, TestResults>, &Individual<Bitstring, TestResults>),
                | #[trigger]
                    chosen.relates(population, pair) && copied.second.relates(pair, genomes);
                let i = choose|i: int| 0 <= i < members.len() && members[i] == *pair.0;
                let j = choose|j: int| 0 <= j < members.len() && members[j] == *pair.1;
                assert(members[i].genome@.len() == len && members[j].genome@.len() == len);
                assert(cloned(pair.0.genome, genomes.0) && cloned(pair.1.genome, genomes.1));
                assert(genomes.0@ =~= members[i].genome@);
            }
            assert forall|genome: Bitstring| #[trigger]
                crossed.relates(population, genome) implies genome@.len() == len && (len <= 1
                ==> holds_genome(members, genome@)) by {
                let genomes = choose|genomes: (Bitstring, Bitstring)| #[trigger]
                    copied.relates(population, genomes) && crossed.second.relates(genomes, genome);
                assert(genomes.0@.len() == len);
                if len <= 1 {
                    assert(genome@ =~= genomes.0@);
                }
            }
            assert forall|genome: Bitstring| #[trigger]
                mutated.relates(population, genome) implies bred_from(members, genome@) by {
                let before = choose|before: Bitstring| #[trigger]
                    crossed.relates(population, before) && mutated.second.relates(before, genome);
                assert(before@.len() == len);
                if len <= 1 {
                    let i = choose|i: int|
                        0 <= i < members.len() && (#[trigger] members[i]).genome@ == before@;
                    assert(genome@ == complement(members[i].genome@));
                }
            }
            assert(chosen.accepts(population));
            assert(copied.accepts(population));
            assert(crossed.accepts(population));
            assert(mutated.accepts(population));
        }
        let genome_scorer = GenomeScorer::new(
            make_mutated_genome,
            BitstringScorer::new(&self.scorer),
        );
        genome_scorer.apply(population, rng)
    }
}

} // verus!
