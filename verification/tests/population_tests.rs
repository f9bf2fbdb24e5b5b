use ec_engine::bitstring::{count_ones, hiff, Bitstring};
use ec_engine::individual::Individual;
use ec_engine::population::{best_index, Population};
use ec_engine::test_results::{aggregate, TestResults};
use rand::rngs::ThreadRng;
use rand::Rng;

fn scored(genome: u8, results: Vec<i64>) -> Individual<u8, TestResults> {
    Individual { genome, test_results: TestResults::new(results) }
}

#[test]
fn aggregate_is_the_exact_sum() {
    assert_eq!(aggregate(&vec![]), 0);
    assert_eq!(aggregate(&vec![5, -8, 13]), 10);
    assert_eq!(aggregate(&vec![i64::MAX, i64::MAX, 2]), 2 * (i64::MAX as i128) + 2);
    assert_eq!(aggregate(&vec![i64::MIN, i64::MIN]), 2 * (i64::MIN as i128));
}

#[test]
fn test_results_keep_scores_and_total_together() {
    let results = TestResults::new(vec![3, 4, -2]);
    assert_eq!(results.results(), &vec![3, 4, -2]);
    assert_eq!(results.total(), 5);
    assert_eq!(results.size(), 3);
    let copy = results.clone();
    assert_eq!(copy.results(), results.results());
    assert_eq!(copy.total(), 5);
}

#[test]
fn best_score_is_at_least_every_other() {
    let population = Population {
        individuals: vec![
            scored(0, vec![1, 1]),
            scored(1, vec![5, 4]),
            scored(2, vec![-3, 20]),
            scored(3, vec![9]),
        ],
    };
    let best = population.best_score();
    assert_eq!(best.genome, 2);
    for individual in &population.individuals {
        assert!(individual.test_results.total() <= best.test_results.total());
    }
}

#[test]
fn of_several_best_the_last_is_returned() {
    let individuals = vec![
        scored(0, vec![7]),
        scored(1, vec![3, 4]),
        scored(2, vec![1]),
        scored(3, vec![7, 0]),
        scored(4, vec![2]),
    ];
    assert_eq!(best_index(&individuals), 3);
    let population = Population { individuals };
    assert_eq!(population.best_score().genome, 3);
    let single = Population { individuals: vec![scored(9, vec![])] };
    assert_eq!(single.best_score().genome, 9);
}

#[test]
fn new_population_has_the_size_asked_for() {
    let population = Population::new(
        25,
        |rng: &mut ThreadRng| rng.gen_range(0u8..10),
        |genome: &u8| vec![*genome as i64, 1],
    );
    assert_eq!(population.individuals.len(), 25);
    for individual in &population.individuals {
        assert!(individual.genome < 10);
        assert_eq!(individual.test_results.results(), &vec![individual.genome as i64, 1]);
        assert_eq!(individual.test_results.total(), individual.genome as i128 + 1);
    }
    let empty = Population::new(0, |_rng: &mut ThreadRng| 0u8, |_genome: &u8| vec![]);
    assert!(empty.individuals.is_empty());
}

#[test]
fn new_bitstring_population_scores_every_genome() {
    let population = Population::new_bitstring_population(10, 16, hiff);
    assert_eq!(population.individuals.len(), 10);
    for individual in &population.individuals {
        let genome: &Bitstring = individual.genome();
        assert_eq!(genome.len(), 16);
        assert_eq!(individual.test_results().results(), &hiff(genome));
        assert_eq!(individual.test_results.size(), 31);
    }
    let population = Population::new_bitstring_population(3, 0, count_ones);
    assert_eq!(population.individuals.len(), 3);
    assert_eq!(population.best_score().test_results.total(), 0);
}
