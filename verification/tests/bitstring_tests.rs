use ec_engine::bitstring::{
    all_same, bit_text, count_ones, do_hiff, hiff, make_random, score_genome, Bitstring,
};
use ec_engine::crossover::{cross_by_mask, splice_between, LinearCrossover};
use ec_engine::mutation::{flip_by_mask, LinearMutation};
use ec_engine::random::Probability;
use ec_engine::individual::Individual;
use ec_engine::test_results::TestResults;

fn bits(text: &str) -> Bitstring {
    text.chars().map(|c| c == '1').collect()
}

#[test]
fn count_ones_scores_each_bit() {
    assert_eq!(count_ones(&bits("10110")), vec![1, 0, 1, 1, 0]);
    assert_eq!(count_ones(&[]), Vec::<i64>::new());
}

#[test]
fn all_same_tells_uniform_blocks() {
    assert!(all_same(&[]));
    assert!(all_same(&bits("1")));
    assert!(all_same(&bits("0000")));
    assert!(!all_same(&bits("0010")));
    assert!(!all_same(&bits("10")));
}

#[test]
fn hiff_lists_children_before_their_parent() {
    assert_eq!(hiff(&bits("1")), vec![1]);
    assert_eq!(hiff(&bits("10")), vec![1, 1, 0]);
    assert_eq!(hiff(&bits("1111")), vec![1, 1, 2, 1, 1, 2, 4]);
    assert_eq!(hiff(&bits("0011")), vec![1, 1, 2, 1, 1, 2, 0]);
    assert_eq!(hiff(&bits("111")), vec![1, 1, 1, 2, 3]);
    assert_eq!(hiff(&bits("100")), vec![1, 1, 1, 2, 0]);
    assert_eq!(hiff(&bits("00000000")).len(), 15);
    assert_eq!(hiff(&bits("00000000")).iter().sum::<i64>(), 8 + 2 * 4 + 4 * 2 + 8);
}

#[test]
fn do_hiff_writes_where_it_is_told_and_nowhere_else() {
    let mut scores = vec![-7; 6];
    let (same, next) = do_hiff(&bits("01"), &mut scores, 2);
    assert!(!same);
    assert_eq!(next, 5);
    assert_eq!(scores, vec![-7, -7, 1, 1, 0, -7]);
    let (same, next) = do_hiff(&[], &mut scores, 0);
    assert!(same);
    assert_eq!(next, 1);
    assert_eq!(scores, vec![0, -7, 1, 1, 0, -7]);
}

#[test]
fn cross_by_mask_picks_by_position() {
    let a = vec![1, 2, 3, 4];
    let b = vec![10, 20, 30, 40];
    let child = cross_by_mask(&a, &b, &vec![true, false, false, true]);
    assert_eq!(child, vec![1, 20, 30, 4]);
}

#[test]
fn splice_between_overwrites_a_half_open_interval() {
    let a = vec![1, 2, 3, 4, 5];
    let b = vec![10, 20, 30, 40, 50];
    assert_eq!(splice_between(&a, &b, 1, 3), vec![1, 20, 30, 4, 5]);
    assert_eq!(splice_between(&a, &b, 3, 1), vec![1, 20, 30, 4, 5]);
    assert_eq!(splice_between(&a, &b, 2, 2), a);
    assert_eq!(splice_between(&a, &b, 0, 5), b);
}

#[test]
fn flip_by_mask_inverts_where_the_mask_is_set() {
    let child = flip_by_mask(&bits("1100"), &bits("1010"));
    assert_eq!(child, bits("0110"));
}

#[test]
fn uniform_xo_takes_every_gene_from_a_parent() {
    let mut rng = rand::thread_rng();
    let a: Vec<u32> = (0..64).collect();
    let b: Vec<u32> = (100..164).collect();
    for _ in 0..20 {
        let child = a.uniform_xo(&b, &mut rng);
        assert_eq!(child.len(), a.len());
        for (i, gene) in child.iter().enumerate() {
            assert!(*gene == a[i] || *gene == b[i]);
        }
    }
}

#[test]
fn two_point_xo_differs_from_the_first_parent_in_one_interval() {
    let mut rng = rand::thread_rng();
    let a = vec![false; 50];
    let b = vec![true; 50];
    for _ in 0..50 {
        let child = a.two_point_xo(&b, &mut rng);
        assert_eq!(child.len(), 50);
        let first = child.iter().position(|bit| *bit);
        let last = child.iter().rposition(|bit| *bit);
        if let (Some(first), Some(last)) = (first, last) {
            assert!(child[first..=last].iter().all(|bit| *bit));
            assert!(last < 49);
        }
    }
    let empty: Vec<bool> = Vec::new();
    assert_eq!(empty.two_point_xo(&Vec::new(), &mut rng), empty);
}

#[test]
fn mutation_at_rate_zero_changes_nothing_and_at_rate_one_everything() {
    let mut rng = rand::thread_rng();
    let genome = make_random(200, &mut rng);
    assert_eq!(genome.len(), 200);
    assert_eq!(genome.mutate_with_rate(Probability::never(), &mut rng), genome);
    let rate = Probability::new(0, 7).unwrap();
    assert_eq!(genome.mutate_with_rate(rate, &mut rng), genome);
    let complement: Bitstring = genome.iter().map(|bit| !bit).collect();
    assert_eq!(genome.mutate_with_rate(Probability::always(), &mut rng), complement);
    let rate = Probability::new(7, 7).unwrap();
    assert_eq!(genome.mutate_with_rate(rate, &mut rng), complement);
}

#[test]
fn mutation_at_one_over_length_keeps_the_length() {
    let mut rng = rand::thread_rng();
    let genome = make_random(100, &mut rng);
    let child = genome.mutate_one_over_length(&mut rng);
    assert_eq!(child.len(), 100);
    let differences = genome.iter().zip(child.iter()).filter(|(p, c)| p != c).count();
    assert!(differences < 50, "{differences} bits flipped");
    assert_eq!(bits("1").mutate_one_over_length(&mut rng), bits("0"));
    assert_eq!(bits("").mutate_one_over_length(&mut rng), bits(""));
}

#[test]
fn a_probability_has_a_positive_denominator_and_is_at_most_one() {
    assert!(Probability::new(1, 0).is_none());
    assert!(Probability::new(3, 2).is_none());
    assert!(Probability::new(0, 1).is_some());
    assert!(Probability::new(2, 2).is_some());
    let mut rng = rand::thread_rng();
    assert!(Probability::one_over(1).draw(&mut rng));
    assert!(Probability::one_over(0).draw(&mut rng));
    assert!(!Probability::never().draw(&mut rng));
    let hits = (0..2000).filter(|_| Probability::fair().draw(&mut rng)).count();
    assert!(600 < hits && hits < 1400, "{hits} of 2000 fair draws hit");
}

#[test]
fn score_genome_pairs_a_genome_with_its_scores() {
    let made = score_genome(bits("1011"), count_ones);
    assert_eq!(made.genome, bits("1011"));
    assert_eq!(made.test_results.results(), &vec![1, 0, 1, 1]);
    assert_eq!(made.test_results.total(), 3);
}

#[test]
fn bitstring_individuals_are_rescored_by_every_operator() {
    let mut rng = rand::thread_rng();
    let parent: Individual<Bitstring, TestResults> =
        Individual::new_bitstring(32, count_ones, &mut rng);
    let other = Individual::new_bitstring(32, count_ones, &mut rng);
    assert_eq!(parent.genome.len(), 32);
    assert_eq!(parent.test_results.results(), &count_ones(&parent.genome));

    let child = parent.two_point_xo(&other, count_ones, &mut rng);
    assert_eq!(child.test_results.results(), &count_ones(&child.genome));
    assert_eq!(child.genome[31], parent.genome[31]);

    let child = parent.uniform_xo(&other, &mut rng);
    assert_eq!(child.test_results.results(), &hiff(&child.genome));
    assert_eq!(child.test_results.size(), 63);

    let child = parent.mutate_one_over_length(count_ones, &mut rng);
    assert_eq!(child.genome.len(), 32);
    assert_eq!(child.test_results.results(), &count_ones(&child.genome));

    let child = parent.mutate_with_rate(Probability::always(), hiff, &mut rng);
    let ones = child.genome.iter().filter(|bit| **bit).count() as i128;
    assert_eq!(ones + parent.test_results.total(), 32);
    assert_eq!(child.test_results.results(), &hiff(&child.genome));
}

#[test]
fn an_individual_is_written_as_digits_scores_and_total() {
    let made = score_genome(bits("1011"), count_ones);
    assert_eq!(made.to_text(), "[1011]\n[1, 0, 1, 1]\n(3)");
    assert_eq!(bit_text(&bits("0010")), "0010");
    assert_eq!(bit_text(&[]), "");
}
