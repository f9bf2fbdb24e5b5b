//! A population of scored individuals, built in parallel.

use crate::individual::{made_by, tested_by, Individual};
use crate::test_results::TestResults;
use rand::rngs::ThreadRng;
use rayon::prelude::{IntoParallelIterator, ParallelIterator};
use vstd::prelude::*;

verus! {

/// `results` are the scores that `score` can return for `genome`.
pub open spec fn scored<G, F: Fn(&G) -> Vec<i64>>(score: F, genome: G, results: Seq<i64>) -> bool {
    exists|scores: Vec<i64>| scores@ == results && #[trigger] call_ensures(score, (&genome,), scores)
}

/// Hands the indices `0..pop_size` to rayon's `into_par_iter`, maps each with
/// `map_init` to one call of [`Individual::new`] on a `rand::thread_rng()`
/// of the worker that runs it, and gathers the results with `collect`. The
/// map yields one result for each index and the collection holds them all.
/// So the vector has `pop_size` individuals, and each is what one call of
/// [`Individual::new`] returns; nothing is claimed of which came from which
/// index.
#[verifier::external_body]
pub(crate) fn par_individuals<G, R, MG, RT>(pop_size: usize, make_genome: &MG, run_tests: &RT) -> (made:
    Vec<Individual<G, R>>) where
    G: Send,
    R: Send,
    MG: Fn(&mut ThreadRng) -> G + Send + Sync,
    RT: Fn(&G) -> R + Send + Sync,

    requires
        forall|r: &mut ThreadRng| call_requires(*make_genome, (r,)),
        forall|g: G| made_by(*make_genome, g) ==> call_requires(*run_tests, (&g,)),
    ensures
        made@.len() == pop_size,
        forall|i: int|
            0 <= i < made@.len() ==> made_by(*make_genome, (#[trigger] made@[i]).genome)
                && tested_by(*run_tests, made@[i].genome, made@[i].test_results),
{
    (0..pop_size).into_par_iter().map_init(
        rand::thread_rng,
        |rng, _| Individual::new(make_genome, run_tests, rng),
    ).collect()
}

/// `k` is the last position at which `totals` is largest.
pub open spec fn is_last_max(totals: Seq<int>, k: int) -> bool {
    &&& 0 <= k < totals.len()
    &&& forall|j: int| 0 <= j < totals.len() ==> totals[j] <= totals[k]
    &&& forall|j: int| k < j < totals.len() ==> totals[j] < totals[k]
}

/// Only one position is the last at which a sequence is largest.
pub proof fn lemma_last_max_unique(totals: Seq<int>, k1: int, k2: int)
    requires
        is_last_max(totals, k1),
        is_last_max(totals, k2),
    ensures
        k1 == k2,
{
    assert(totals[k1] <= totals[k2] && totals[k2] <= totals[k1]);
    if k1 < k2 {
        assert(totals[k2] < totals[k1]);
    } else if k2 < k1 {
        assert(totals[k1] < totals[k2]);
    }
}

/// Individuals that were all scored by the same function, so that their
/// results can be compared.
pub struct Population<G> {
    pub individuals: Vec<Individual<G, TestResults>>,
}

/// The aggregates of the individuals, in order.
pub open spec fn totals_of<G>(individuals: Seq<Individual<G, TestResults>>) -> Seq<int> {
    Seq::new(individuals.len(), |i: int| individuals[i].test_results.aggregate())
}

/// `chosen` is the individual with the largest aggregate; of several, the
/// last.
pub open spec fn is_best_of<G>(
    individuals: Seq<Individual<G, TestResults>>,
    chosen: Individual<G, TestResults>,
) -> bool {
    exists|k: int| #[trigger] is_last_max(totals_of(individuals), k) && chosen == individuals[k]
}

/// The best individual is one of the population, and none has a larger
/// aggregate.
pub proof fn lemma_best_is_maximal<G>(
    individuals: Seq<Individual<G, TestResults>>,
    chosen: Individual<G, TestResults>,
)
    requires
        is_best_of(individuals, chosen),
    ensures
        individuals.contains(chosen),
        forall|i: int|
            0 <= i < individuals.len() ==> (#[trigger] individuals[i]).test_results.aggregate()
                <= chosen.test_results.aggregate(),
{
    let k = choose|k: int| #[trigger]
        is_last_max(totals_of(individuals), k) && chosen == individuals[k];
    assert(individuals[k] == chosen);
    assert forall|i: int| 0 <= i < individuals.len() implies (#[trigger] individuals[i]).test_results.aggregate()
        <= chosen.test_results.aggregate() by {
        assert(totals_of(individuals)[i] <= totals_of(individuals)[k]);
    }
}

/// The position of the individual with the largest aggregate; of several,
/// the last.
pub fn best_index<G>(individuals: &Vec<Individual<G, TestResults>>) -> (best: usize)
    requires
        individuals@.len() > 0,
    ensures
        is_last_max(totals_of(individuals@), best as int),
{
    let ghost totals = totals_of(individuals@);
    let mut best: usize = 0;
    let mut best_total: i128 = individuals[0].test_results.total();
    let mut i: usize = 1;
    while i < individuals.len()
        invariant
            1 <= i <= individuals@.len(),
            best < i,
            totals == totals_of(individuals@),
            best_total == totals[best as int],
            forall|j: int| 0 <= j < i ==> totals[j] <= totals[best as int],
            forall|j: int| best < j < i ==> totals[j] < totals[best as int],
        decreases individuals@.len() - i,
    {
        let total = individuals[i].test_results.total();
        if total >= best_total {
            best = i;
            best_total = total;
        }
        i += 1;
    }
    best
}

impl<G> Population<G> {
    /// The aggregates of the individuals, in order.
    pub open spec fn totals(&self) -> Seq<int> {
        totals_of(self.individuals@)
    }

    /// The individual with the largest aggregate; of several, the last. The
    /// population must not be empty.
    pub fn best_score(&self) -> (best: &Individual<G, TestResults>)
        requires
            self.individuals@.len() > 0,
        ensures
            is_best_of(self.individuals@, *best),
    {
        let best = best_index(&self.individuals);
        &self.individuals[best]
    }
}

impl<G> crate::generation::Population for Population<G> {
    type Individual = Individual<G, TestResults>;

    open spec fn count(&self) -> nat {
        self.individuals@.len()
    }

    fn size(&self) -> (n: usize) {
        self.individuals.len()
    }
}

impl<G: Send> Population<G> {
    /// Builds `pop_size` individuals, each from its own draw of
    /// `make_genome`, scored by `compute_score`. The work is spread over
    /// rayon's workers, each with a generator of its own.
    pub fn new(
        pop_size: usize,
        make_genome: impl Fn(&mut ThreadRng) -> G + Send + Sync,
        compute_score: impl Fn(&G) -> Vec<i64> + Send + Sync,
    ) -> (pop: Self)
        requires
            forall|r: &mut ThreadRng| call_requires(make_genome, (r,)),
            forall|g: G| made_by(make_genome, g) ==> call_requires(compute_score, (&g,)),
        ensures
            pop.individuals@.len() == pop_size,
            forall|i: int|
                0 <= i < pop.individuals@.len() ==> made_by(
                    make_genome,
                    (#[trigger] pop.individuals@[i]).genome,
                ) && scored(
                    compute_score,
                    pop.individuals@[i].genome,
                    pop.individuals@[i].test_results@,
                ),
    {
        let score = &compute_score;
        let run_tests = |genome: &G| -> (results: TestResults)
            requires
                call_requires(score, (genome,)),
            ensures
                scored(score, *genome, results@),
            { TestResults::new(score(genome)) };
        let individuals = par_individuals(pop_size, &make_genome, &run_tests);
        Population { individuals }
    }
}

} // verus!
