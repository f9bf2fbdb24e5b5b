//! Collections of individuals, and how a whole collection is generated.

use crate::child_maker::ChildMaker;
use crate::individual::{made_by, tested_by, Individual};
use crate::population::par_individuals;
use crate::random::Probability;
use rand::rngs::ThreadRng;
use vstd::prelude::*;

verus! {

/// A collection of individuals.
pub trait Population {
    /// What the collection holds.
    type Individual;

    /// The number of individuals.
    spec fn count(&self) -> nat;

    /// Whether there is no individual at all.
    fn is_empty(&self) -> (empty: bool)
        ensures
            empty == (self.count() == 0),
    {
        self.size() == 0
    }

    /// The number of individuals.
    fn size(&self) -> (n: usize)
        ensures
            n == self.count(),
    ;
}

impl<I> Population for Vec<I> {
    type Individual = I;

    open spec fn count(&self) -> nat {
        self@.len()
    }

    fn size(&self) -> (n: usize) {
        self.len()
    }
}

/// A population that can be built from a genome factory and a scoring
/// function.
pub trait Generate: Population + Sized {
    /// The genome of an individual.
    type Genome;

    /// The results of testing a genome.
    type TestResults;

    /// The individuals, in order.
    spec fn members(&self) -> Seq<Individual<Self::Genome, Self::TestResults>>;

    /// Builds `pop_size` individuals, each from a draw of `make_genome` of
    /// its own, scored by `run_tests`. No individual shares a generator with
    /// one built on another thread.
    fn generate<MG, RT>(pop_size: usize, make_genome: MG, run_tests: RT) -> (pop: Self) where
        MG: Fn(&mut ThreadRng) -> Self::Genome + Send + Sync,
        RT: Fn(&Self::Genome) -> Self::TestResults + Send + Sync,

        requires
            forall|r: &mut ThreadRng| call_requires(make_genome, (r,)),
            forall|g: Self::Genome|
                made_by(make_genome, g) ==> call_requires(run_tests, (&g,)),
        ensures
            pop.count() == pop_size,
            pop.members().len() == pop_size,
            forall|i: int|
                0 <= i < pop.members().len() ==> made_by(
                    make_genome,
                    (#[trigger] pop.members()[i]).genome,
                ) && tested_by(run_tests, pop.members()[i].genome, pop.members()[i].test_results),
    ;
}

impl<G: Send, R: Send> Generate for Vec<Individual<G, R>> {
    type Genome = G;

    type TestResults = R;

    open spec fn members(&self) -> Seq<Individual<G, R>> {
        self@
    }

    fn generate<MG, RT>(pop_size: usize, make_genome: MG, run_tests: RT) -> (pop: Self) where
        MG: Fn(&mut ThreadRng) -> G + Send + Sync,
        RT: Fn(&G) -> R + Send + Sync,
    {
        par_individuals(pop_size, &make_genome, &run_tests)
    }
}

/// Makes the next generation: as many children as the population has
/// members, each made from the whole population by `child_maker`. The
/// population itself is only read.
pub fn next_generation<I, S, C: ChildMaker<Vec<I>, S>>(
    population: &Vec<I>,
    child_maker: &C,
    selector: &S,
    rng: &mut ThreadRng,
) -> (next: Vec<I>)
    requires
        child_maker.accepts(population),
    ensures
        next@.len() == population@.len(),
        forall|i: int| 0 <= i < next@.len() ==> child_maker.relates(population, #[trigger] next@[i]),
{
    let size = population.len();
    let mut next: Vec<I> = Vec::with_capacity(size);
    let mut i: usize = 0;
    while i < size
        invariant
            i <= size,
            size == population@.len(),
            next@.len() == i,
            child_maker.accepts(population),
            forall|k: int| 0 <= k < i ==> child_maker.relates(population, #[trigger] next@[k]),
        decreases size - i,
    {
        let child = child_maker.make_child(rng, population, selector);
        next.push(child);
        i += 1;
    }
    next
}

/// A source of values of type `T`, steered by a context of type `C`.
pub trait Generator<T, C> {
    /// What a context must meet before a value is generated from it.
    spec fn ready(context: &C) -> bool;

    /// What holds of every value generated from the context.
    spec fn fits(context: &C, value: T) -> bool;

    /// Generates one value.
    fn generate(&mut self, context: &C) -> (value: T)
        requires
            Self::ready(context),
        ensures
            Self::fits(context, value),
    ;
}

/// A bit that is set with the given probability.
impl Generator<bool, Probability> for ThreadRng {
    open spec fn ready(context: &Probability) -> bool {
        true
    }

    open spec fn fits(context: &Probability, value: bool) -> bool {
        &&& context.numerator() == 0 ==> !value
        &&& context.numerator() == context.denominator() ==> value
    }

    fn generate(&mut self, context: &Probability) -> (value: bool) {
        context.draw(self)
    }
}

/// What a collection is generated from: its size, and the context from
/// which each of its items is generated.
pub struct GeneratorContext<IC> {
    population_size: usize,
    individual_context: IC,
}

impl<IC> GeneratorContext<IC> {
    /// The number of items to generate.
    pub closed spec fn population_size(&self) -> nat {
        self.population_size as nat
    }

    /// The context of each item.
    pub closed spec fn individual_context(&self) -> IC {
        self.individual_context
    }

    /// A context for `population_size` items, each generated from
    /// `individual_context`.
    pub fn new(population_size: usize, individual_context: IC) -> (context: Self)
        ensures
            context.population_size() == population_size,
            context.individual_context() == individual_context,
    {
        GeneratorContext { population_size, individual_context }
    }
}

/// A vector of items, generated one after the other from a single generator.
impl<I, IC> Generator<Vec<I>, GeneratorContext<IC>> for ThreadRng where ThreadRng: Generator<I, IC> {
    open spec fn ready(context: &GeneratorContext<IC>) -> bool {
        <ThreadRng as Generator<I, IC>>::ready(&context.individual_context())
    }

    open spec fn fits(context: &GeneratorContext<IC>, value: Vec<I>) -> bool {
        &&& value@.len() == context.population_size()
        &&& forall|i: int|
            0 <= i < value@.len() ==> <ThreadRng as Generator<I, IC>>::fits(
                &context.individual_context(),
                #[trigger] value@[i],
            )
    }

    fn generate(&mut self, context: &GeneratorContext<IC>) -> (value: Vec<I>) {
        let mut value: Vec<I> = Vec::with_capacity(context.population_size);
        let mut i: usize = 0;
        while i < context.population_size
            invariant
                i <= context.population_size,
                value@.len() == i,
                <ThreadRng as Generator<I, IC>>::ready(&context.individual_context()),
                forall|k: int|
                    0 <= k < i ==> <ThreadRng as Generator<I, IC>>::fits(
                        &context.individual_context(),
                        #[trigger] value@[k],
                    ),
            decreases context.population_size - i,
        {
            let item = self.generate(&context.individual_context);
            value.push(item);
            i += 1;
        }
        value
    }
}

} // verus!
