//! Bitstring genomes: how they are made, scored and written out.

use crate::crossover::{is_two_point_cross, is_uniform_cross, LinearCrossover};
use crate::individual::Individual;
use crate::mutation::{complement, LinearMutation};
use crate::population::Population;
use crate::random::Probability;
use crate::test_results::TestResults;
use rand::rngs::ThreadRng;
use vstd::prelude::*;

verus! {

/// A genome that is a fixed-length sequence of bits.
pub type Bitstring = Vec<bool>;

/// Every bit equals every other.
pub open spec fn is_uniform(bits: Seq<bool>) -> bool {
    forall|i: int, j: int| 0 <= i < bits.len() && 0 <= j < bits.len() ==> bits[i] == bits[j]
}

/// One score per bit: 1 where the bit is set, 0 where it is not.
pub open spec fn ones_of(bits: Seq<bool>) -> Seq<i64> {
    Seq::new(bits.len(), |i: int| if bits[i] { 1i64 } else { 0i64 })
}

/// The score of one node of the partition tree: the length of its block if
/// the block is uniform, and nothing otherwise. A block of fewer than two
/// bits is always uniform.
pub open spec fn block_score(bits: Seq<bool>) -> i64 {
    if is_uniform(bits) {
        bits.len() as i64
    } else {
        0
    }
}

/// The scores of the partition tree of `bits`: the tree of the first half,
/// then the tree of the second half, then the block itself.
pub open spec fn hiff_scores(bits: Seq<bool>) -> Seq<i64>
    decreases bits.len(),
{
    if bits.len() < 2 {
        seq![bits.len() as i64]
    } else {
        let half = (bits.len() / 2) as int;
        hiff_scores(bits.subrange(0, half)) + hiff_scores(bits.subrange(half, bits.len() as int))
            + seq![block_score(bits)]
    }
}

/// The number of nodes in the partition tree of a block of `len` bits.
pub open spec fn node_count(len: nat) -> nat {
    if len < 2 {
        1
    } else {
        (2 * len - 1) as nat
    }
}

/// The partition tree of a block has `node_count` scores.
pub proof fn lemma_hiff_scores_len(bits: Seq<bool>)
    ensures
        hiff_scores(bits).len() == node_count(bits.len()),
    decreases bits.len(),
{
    if bits.len() >= 2 {
        let half = (bits.len() / 2) as int;
        lemma_hiff_scores_len(bits.subrange(0, half));
        lemma_hiff_scores_len(bits.subrange(half, bits.len() as int));
    }
}

/// A block is uniform exactly when both halves are and they start alike.
pub proof fn lemma_uniform_by_halves(bits: Seq<bool>, half: int)
    requires
        0 < half < bits.len(),
    ensures
        is_uniform(bits) <==> (is_uniform(bits.subrange(0, half)) && is_uniform(
            bits.subrange(half, bits.len() as int),
        ) && bits[0] == bits[half]),
{
    let left = bits.subrange(0, half);
    let right = bits.subrange(half, bits.len() as int);
    if is_uniform(bits) {
        assert forall|i: int, j: int| 0 <= i < left.len() && 0 <= j < left.len() implies left[i]
            == left[j] by {
            assert(left[i] == bits[i] && left[j] == bits[j]);
        }
        assert forall|i: int, j: int| 0 <= i < right.len() && 0 <= j < right.len() implies right[i]
            == right[j] by {
            assert(right[i] == bits[half + i] && right[j] == bits[half + j]);
        }
    }
    if is_uniform(left) && is_uniform(right) && bits[0] == bits[half] {
        assert forall|i: int| 0 <= i < bits.len() implies #[trigger] bits[i] == bits[0] by {
            if i < half {
                assert(left[i] == bits[i] && left[0] == bits[0]);
            } else {
                assert(right[i - half] == bits[i] && right[0] == bits[half]);
            }
        }
    }
}

/// Scores each bit by itself: 1 for a set bit, 0 for a clear one.
pub fn count_ones(bits: &[bool]) -> (scores: Vec<i64>)
    ensures
        scores@ == ones_of(bits@),
{
    let mut scores: Vec<i64> = Vec::new();
    let mut i: usize = 0;
    while i < bits.len()
        invariant
            i <= bits.len(),
            scores@ == ones_of(bits@.take(i as int)),
        decreases bits.len() - i,
    {
        scores.push(if bits[i] { 1 } else { 0 });
        i += 1;
        assert(scores@ == ones_of(bits@.take(i as int)));
    }
    assert(bits@.take(bits.len() as int) == bits@);
    scores
}

/// Whether all the bits are equal. An empty block is uniform.
pub fn all_same(bits: &[bool]) -> (same: bool)
    ensures
        same == is_uniform(bits@),
{
    let mut i: usize = 0;
    while i < bits.len()
        invariant
            i <= bits.len(),
            forall|k: int| 0 <= k < i ==> #[trigger] bits@[k] == bits@[0],
        decreases bits.len() - i,
    {
        if bits[i] != bits[0] {
            return false;
        }
        i += 1;
    }
    true
}

/// Scores a bitstring by hierarchical if-and-only-if: one score for every
/// node of its partition tree, children before their parent. The bitstring
/// must not be empty, as a tree of `2 * len - 1` nodes has no meaning then,
/// and the number of nodes must fit in a `usize`.
pub fn hiff(bits: &[bool]) -> (scores: Vec<i64>)
    requires
        1 <= bits@.len(),
        2 * bits@.len() <= usize::MAX,
    ensures
        scores@ == hiff_scores(bits@),
{
    let num_scores: usize = 2 * bits.len() - 1;
    let mut scores: Vec<i64> = vec![0; num_scores];
    proof {
        lemma_hiff_scores_len(bits@);
    }
    do_hiff(bits, scores.as_mut_slice(), 0);
    assert(scores@ == scores@.subrange(0, num_scores as int));
    scores
}

/// Writes the scores of the partition tree of `bits` into `scores`, starting
/// at `current_index`, and leaves the rest of `scores` alone. Returns whether
/// the block is uniform, and the index just past the last score written.
/// There must be room in `scores` for every node, and the length of the
/// block must itself be a score.
pub fn do_hiff(bits: &[bool], scores: &mut [i64], current_index: usize) -> (done: (bool, usize))
    requires
        bits@.len() <= i64::MAX,
        current_index + node_count(bits@.len()) <= old(scores)@.len(),
    ensures
        done.0 == is_uniform(bits@),
        done.1 == current_index + node_count(bits@.len()),
        final(scores)@.len() == old(scores)@.len(),
        final(scores)@.subrange(current_index as int, done.1 as int) == hiff_scores(bits@),
        forall|k: int|
            0 <= k < old(scores)@.len() && !(current_index <= k < done.1) ==> final(scores)@[k]
                == old(scores)@[k],
    decreases bits@.len(),
{
    let len = bits.len();
    if len < 2 {
        scores[current_index] = len as i64;
        assert(scores@.subrange(current_index as int, current_index + 1) == seq![len as i64]);
        return (true, current_index + 1);
    } else {
        let half_len = len / 2;
        let (left_all_same, offset) = do_hiff(&bits[0..half_len], scores, current_index);
        let ghost middle = scores@;
        let (right_all_same, offset) = do_hiff(&bits[half_len..len], scores, offset);
        let ghost left = bits@.subrange(0, half_len as int);
        let ghost right = bits@.subrange(half_len as int, len as int);
        proof {
            lemma_uniform_by_halves(bits@, half_len as int);
            lemma_hiff_scores_len(left);
            lemma_hiff_scores_len(right);
        }
        let same = left_all_same && right_all_same && bits[0] == bits[half_len];
        scores[offset] = if same { len as i64 } else { 0 };
        proof {
            let mid = current_index + node_count(left.len());
            let written = scores@.subrange(current_index as int, offset + 1);
            assert(written.len() == hiff_scores(bits@).len());
            assert forall|k: int| 0 <= k < written.len() implies written[k] == hiff_scores(
                bits@,
            )[k] by {
                if k < mid - current_index {
                    assert(middle.subrange(current_index as int, mid as int)[k] == middle[
                        current_index + k
                    ]);
                }
            }
            assert(written == hiff_scores(bits@));
        }
        return (same, offset + 1);
    }
}

/// A bitstring of `len` bits, each drawn as a fair coin.
pub fn make_random(len: usize, rng: &mut ThreadRng) -> (bits: Bitstring)
    ensures
        bits@.len() == len,
{
    let mut bits: Vec<bool> = Vec::with_capacity(len);
    let mut i: usize = 0;
    while i < len
        invariant
            i <= len,
            bits@.len() == i,
        decreases len - i,
    {
        let bit = Probability::fair().draw(rng);
        bits.push(bit);
        i += 1;
    }
    bits
}

/// `results` are the scores that `score` can return for the bits `genome`.
pub open spec fn scored_by<F: Fn(&[bool]) -> Vec<i64>>(
    score: F,
    genome: Seq<bool>,
    results: Seq<i64>,
) -> bool {
    exists|bits: &[bool], scores: Vec<i64>|
        bits@ == genome && scores@ == results && #[trigger] call_ensures(score, (bits,), scores)
}

/// `score` may be called on every bitstring of `len` bits.
pub open spec fn scores_length<F: Fn(&[bool]) -> Vec<i64>>(score: F, len: nat) -> bool {
    forall|bits: &[bool]| bits@.len() == len ==> call_requires(score, (bits,))
}

/// Scores a genome and pairs it with its results.
pub fn score_genome(genome: Bitstring, compute_score: impl Fn(&[bool]) -> Vec<i64>) -> (made:
    Individual<Bitstring, TestResults>)
    requires
        scores_length(compute_score, genome@.len()),
    ensures
        made.genome == genome,
        scored_by(compute_score, genome@, made.test_results@),
{
    let scores = compute_score(genome.as_slice());
    let test_results = TestResults::new(scores);
    Individual { genome, test_results }
}

impl Individual<Bitstring, TestResults> {
    /// A random bitstring of `bit_length` bits, scored by `compute_score`.
    pub fn new_bitstring(
        bit_length: usize,
        compute_score: impl Fn(&[bool]) -> Vec<i64> + Send + Sync,
        rng: &mut ThreadRng,
    ) -> (made: Self)
        requires
            scores_length(compute_score, bit_length as nat),
        ensures
            made.genome@.len() == bit_length,
            scored_by(compute_score, made.genome@, made.test_results@),
    {
        let score = &compute_score;
        let make_genome = |rng: &mut ThreadRng| -> (bits: Bitstring)
            ensures
                bits@.len() == bit_length,
            { make_random(bit_length, rng) };
        let run_tests = |genome: &Bitstring| -> (results: TestResults)
            requires
                genome@.len() == bit_length,
            ensures
                scored_by(score, genome@, results@),
            { TestResults::new(score(genome.as_slice())) };
        Individual::new(make_genome, run_tests, rng)
    }

    /// The child of a uniform crossover with `other_parent`, scored by
    /// [`hiff`]. The parents must be of one length, and not empty.
    pub fn uniform_xo(&self, other_parent: &Self, rng: &mut ThreadRng) -> (child: Self)
        requires
            self.genome@.len() == other_parent.genome@.len(),
            1 <= self.genome@.len(),
            2 * self.genome@.len() <= usize::MAX,
        ensures
            is_uniform_cross(self.genome@, other_parent.genome@, child.genome@),
            child.test_results@ == hiff_scores(child.genome@),
    {
        let genome = self.genome.uniform_xo(&other_parent.genome, rng);
        let scores = hiff(genome.as_slice());
        Individual { genome, test_results: TestResults::new(scores) }
    }

    /// The child of a two-point crossover with `other_parent`, scored by
    /// `compute_score`.
    pub fn two_point_xo(
        &self,
        other_parent: &Self,
        compute_score: impl Fn(&[bool]) -> Vec<i64>,
        rng: &mut ThreadRng,
    ) -> (child: Self)
        requires
            self.genome@.len() == other_parent.genome@.len(),
            scores_length(compute_score, self.genome@.len()),
        ensures
            is_two_point_cross(self.genome@, other_parent.genome@, child.genome@),
            scored_by(compute_score, child.genome@, child.test_results@),
    {
        let genome = self.genome.two_point_xo(&other_parent.genome, rng);
        score_genome(genome, compute_score)
    }

    /// A copy mutated at a rate of one over its length, scored by
    /// `compute_score`.
    pub fn mutate_one_over_length(
        &self,
        compute_score: impl Fn(&[bool]) -> Vec<i64>,
        rng: &mut ThreadRng,
    ) -> (child: Self)
        requires
            scores_length(compute_score, self.genome@.len()),
        ensures
            child.genome@.len() == self.genome@.len(),
            self.genome@.len() <= 1 ==> child.genome@ == complement(self.genome@),
            scored_by(compute_score, child.genome@, child.test_results@),
    {
        let genome = self.genome.mutate_one_over_length(rng);
        score_genome(genome, compute_score)
    }

    /// A copy mutated at the given rate, scored by `compute_score`.
    pub fn mutate_with_rate(
        &self,
        mutation_rate: Probability,
        compute_score: impl Fn(&[bool]) -> Vec<i64>,
        rng: &mut ThreadRng,
    ) -> (child: Self)
        requires
            scores_length(compute_score, self.genome@.len()),
        ensures
            child.genome@.len() == self.genome@.len(),
            mutation_rate.numerator() == 0 ==> child.genome@ == self.genome@,
            mutation_rate.numerator() == mutation_rate.denominator() ==> child.genome@
                == complement(self.genome@),
            scored_by(compute_score, child.genome@, child.test_results@),
    {
        let genome = self.genome.mutate_with_rate(mutation_rate, rng);
        score_genome(genome, compute_score)
    }
}

/// The digits of a bitstring: `'1'` for a set bit, `'0'` for a clear one.
pub open spec fn bit_digits(bits: Seq<bool>) -> Seq<char> {
    Seq::new(
        bits.len(),
        |i: int|
            if bits[i] {
                '1'
            } else {
                '0'
            },
    )
}

/// `String::push` appends one character to the end of the string.
pub assume_specification[ String::push ](text: &mut String, ch: char)
    ensures
        final(text)@ == old(text)@.push(ch),
;

/// The text that `format!` lays out for an individual from the digits of
/// its genome, its scores and their total: the digits in square brackets,
/// the scores as `Debug` prints a vector, and the total in round brackets,
/// each on a line of its own.
pub uninterp spec fn rendered(digits: Seq<char>, scores: Seq<i64>, total: int) -> Seq<char>;

/// Calls `format!`, which renders the digits with `Display`, the scores
/// with `Debug` and the total with `Display`. The text depends on these
/// three alone.
#[verifier::external_body]
fn render(digits: &String, scores: &Vec<i64>, total: i128) -> (text: String)
    ensures
        text@ == rendered(digits@, scores@, total as int),
{
    format!("[{}]\n{:?}\n({})", digits, scores, total)
}

/// Writes a bitstring as a string of the digits 0 and 1.
pub fn bit_text(bits: &[bool]) -> (text: String)
    ensures
        text@ == bit_digits(bits@),
{
    let mut text = String::new();
    let mut i: usize = 0;
    while i < bits.len()
        invariant
            i <= bits.len(),
            text@ == bit_digits(bits@.take(i as int)),
        decreases bits.len() - i,
    {
        text.push(if bits[i] { '1' } else { '0' });
        i += 1;
        assert(text@ == bit_digits(bits@.take(i as int)));
    }
    assert(bits@.take(bits.len() as int) == bits@);
    text
}

impl Individual<Bitstring, TestResults> {
    /// The individual as text: its genome as digits, then its scores, then
    /// their total.
    pub fn to_text(&self) -> (text: String)
        ensures
            text@ == rendered(
                bit_digits(self.genome@),
                self.test_results@,
                self.test_results.aggregate(),
            ),
    {
        let digits = bit_text(self.genome.as_slice());
        render(&digits, self.test_results.results(), self.test_results.total())
    }
}

impl Population<Bitstring> {
    /// A population of `pop_size` random bitstrings of `bit_length` bits,
    /// each scored by `compute_score`.
    pub fn new_bitstring_population(
        pop_size: usize,
        bit_length: usize,
        compute_score: impl Fn(&[bool]) -> Vec<i64> + Send + Sync,
    ) -> (pop: Self)
        requires
            scores_length(compute_score, bit_length as nat),
        ensures
            pop.individuals@.len() == pop_size,
            forall|i: int|
                0 <= i < pop.individuals@.len() ==> (#[trigger] pop.individuals@[i]).genome@.len()
                    == bit_length && scored_by(
                    compute_score,
                    pop.individuals@[i].genome@,
                    pop.individuals@[i].test_results@,
                ),
    {
        let score = &compute_score;
        let make_genome = |rng: &mut ThreadRng| -> (bits: Bitstring)
            ensures
                bits@.len() == bit_length,
            { make_random(bit_length, rng) };
        let score_bits = |genome: &Bitstring| -> (scores: Vec<i64>)
            requires
                genome@.len() == bit_length,
            ensures
                scored_by(score, genome@, scores@),
            { score(genome.as_slice()) };
        Population::new(pop_size, make_genome, score_bits)
    }
}

} // verus!
