use ec_engine::bitstring::{count_ones, Bitstring};
use ec_engine::child_maker::two_point_xo_mutate::TwoPointXoMutate;
use ec_engine::child_maker::ChildMaker;
use ec_engine::generation::next_generation;
use ec_engine::individual::Individual;
use ec_engine::operator::composable::{ApplyTwice, MapPair, Then};
use ec_engine::operator::genome_extractor::GenomeExtractor;
use ec_engine::operator::genome_scorer::{BitstringScorer, GenomeScorer, Scorer};
use ec_engine::operator::identity::Identity;
use ec_engine::operator::mutator::{Mutate, Mutator, WithOneOverLength, WithRate};
use ec_engine::operator::recombinator::{Recombinator, Recombine, TwoPointXo, UniformXo};
use ec_engine::operator::selector::{Best, Random, Select, Selector};
use ec_engine::operator::{Composable, Operator};
use ec_engine::random::Probability;
use ec_engine::test_results::TestResults;
use rand::thread_rng;

fn individual(bits: Vec<bool>) -> Individual<Bitstring, TestResults> {
    let test_results = TestResults::new(count_ones(&bits));
    Individual { genome: bits, test_results }
}

#[test]
fn smoke_test() {
    let mut rng = thread_rng();
    let bit_length = 100;

    let first_parent = Individual::new_bitstring(bit_length, count_ones, &mut rng);
    let second_parent = Individual::new_bitstring(bit_length, count_ones, &mut rng);

    let child_genome = Identity::new((&first_parent, &second_parent))
        .then_map(GenomeExtractor)
        .and_then(Recombine::new(TwoPointXo))
        .and_then(Mutate::new(WithOneOverLength))
        .apply((), &mut rng);

    let first_genome = first_parent.genome();
    assert_eq!(bit_length, first_genome.len());
    let second_genome = second_parent.genome();
    assert_eq!(bit_length, second_genome.len());

    let num_in_either_parent = child_genome
        .clone()
        .into_iter()
        .enumerate()
        .filter(|(pos, val)| *val == first_genome[*pos] || *val == second_genome[*pos])
        .count();
    let target_range = (bit_length - 5)..=bit_length;
    assert!(
        target_range.contains(&num_in_either_parent),
        "{num_in_either_parent} wasn't in the expected range {target_range:?}, \n{first_genome:?}, \n{second_genome:?}, \n{child_genome:?}"
    );
}

#[test]
fn make_child_gives_a_scored_genome_of_the_parents_length() {
    let mut rng = thread_rng();
    let population: Vec<Individual<Bitstring, TestResults>> = (0..10)
        .map(|_| Individual::new_bitstring(40, count_ones, &mut rng))
        .collect();
    let child_maker = TwoPointXoMutate::new(count_ones);
    for _ in 0..20 {
        let child = child_maker.make_child(&mut rng, &population, &Random);
        assert_eq!(child.genome.len(), 40);
        assert_eq!(child.test_results.results(), &count_ones(&child.genome));
    }
    let child = child_maker.clone().make_child(&mut rng, &population, &Best);
    assert_eq!(child.genome.len(), 40);
}

#[test]
fn next_generation_keeps_the_size_and_leaves_the_parents_alone() {
    let mut rng = thread_rng();
    let population: Vec<Individual<Bitstring, TestResults>> =
        vec![individual(vec![true; 12]), individual(vec![false; 12]), individual(vec![true; 12])];
    let child_maker = TwoPointXoMutate::new(count_ones);
    let next = next_generation(&population, &child_maker, &Random, &mut rng);
    assert_eq!(next.len(), 3);
    for child in &next {
        assert_eq!(child.genome.len(), 12);
        assert_eq!(child.test_results.results(), &count_ones(&child.genome));
    }
    assert_eq!(population[0].genome, vec![true; 12]);
    assert_eq!(population[1].genome, vec![false; 12]);
}

#[test]
fn selectors_pick_from_the_population() {
    let mut rng = thread_rng();
    let population = vec![
        individual(vec![true, false]),
        individual(vec![true, true]),
        individual(vec![false, false]),
    ];
    assert_eq!(Best.select(&population, &mut rng).genome, vec![true, true]);
    for _ in 0..20 {
        let chosen = Random.select(&population, &mut rng);
        assert!(population.iter().any(|member| member.genome == chosen.genome));
    }
    let best = Best;
    let select = Select::new(&best);
    assert_eq!(select.apply(&population, &mut rng).genome, vec![true, true]);
    let (one, other) = Select::new(&best).apply_twice().apply(&population, &mut rng);
    assert_eq!(one.genome, other.genome);
}

#[test]
fn combinators_apply_their_parts_in_order() {
    let mut rng = thread_rng();
    let parent = individual(vec![true, false, true]);
    let other = individual(vec![false, false, false]);

    let extracted = Identity::new(&parent).and_then(GenomeExtractor).apply((), &mut rng);
    assert_eq!(extracted, vec![true, false, true]);

    let pair = MapPair::new(GenomeExtractor).apply((&parent, &other), &mut rng);
    assert_eq!(pair, (vec![true, false, true], vec![false, false, false]));

    let twice = ApplyTwice::new(Identity::new(7u8)).apply((), &mut rng);
    assert_eq!(twice, (7, 7));

    let flipped = Then::new(Identity::new(&parent), GenomeExtractor)
        .and_then(Mutate::new(WithRate::new(Probability::always())))
        .apply((), &mut rng);
    assert_eq!(flipped, vec![false, true, false]);

    let kept = WithRate::new(Probability::never()).mutate(vec![true, true], &mut rng);
    assert_eq!(kept, vec![true, true]);

    let same = UniformXo.recombine((vec![4, 4, 4], vec![4, 4, 4]), &mut rng);
    assert_eq!(same, vec![4, 4, 4]);
    let crossed = TwoPointXo.recombine((vec![1, 2, 3], vec![7, 8, 9]), &mut rng);
    assert_eq!(crossed[2], 3);
}

#[test]
fn genome_scorer_pairs_the_genome_with_its_results() {
    let mut rng = thread_rng();
    let parent = individual(vec![true, true, false, true]);
    let scorer = count_ones;
    let results = BitstringScorer::new(&scorer).score(&parent.genome);
    assert_eq!(results.total(), 3);
    let pipeline = Identity::new(&parent).and_then(GenomeExtractor);
    let made = GenomeScorer::new(pipeline, BitstringScorer::new(&scorer)).apply((), &mut rng);
    assert_eq!(made.genome, parent.genome);
    assert_eq!(made.test_results.results(), &vec![1, 1, 0, 1]);
}

#[test]
fn a_child_of_one_bit_parents_is_always_flipped() {
    let mut rng = thread_rng();
    let population = vec![individual(vec![true]), individual(vec![true])];
    let child_maker = TwoPointXoMutate::new(count_ones);
    for _ in 0..10 {
        let child = child_maker.make_child(&mut rng, &population, &Random);
        assert_eq!(child.genome, vec![false]);
        assert_eq!(child.test_results.total(), 0);
    }
    let population = vec![individual(vec![])];
    let child = child_maker.make_child(&mut rng, &population, &Best);
    assert!(child.genome.is_empty());
}
