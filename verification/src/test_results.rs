//! Result vectors: one signed score per test case, and their sum.

use vstd::prelude::*;

verus! {

/// The arithmetic sum of a sequence of scores.
pub open spec fn sum_of(results: Seq<i64>) -> int
    decreases results.len(),
{
    if results.len() == 0 {
        0
    } else {
        sum_of(results.drop_last()) + results.last()
    }
}

/// The sum of `n` scores lies within `n` times the range of one score.
pub proof fn lemma_sum_of_bounds(results: Seq<i64>)
    ensures
        -(results.len() as int) * 0x8000_0000_0000_0000 <= sum_of(results),
        sum_of(results) <= (results.len() as int) * 0x7fff_ffff_ffff_ffff,
    decreases results.len(),
{
    if results.len() > 0 {
        lemma_sum_of_bounds(results.drop_last());
    }
}

/// Sums the scores. The total is wide enough for any vector that fits in
/// memory, so the sum is exact and never wraps.
pub fn aggregate(results: &Vec<i64>) -> (total: i128)
    ensures
        total == sum_of(results@),
{
    let mut total: i128 = 0;
    let mut i: usize = 0;
    while i < results.len()
        invariant
            i <= results.len(),
            total == sum_of(results@.take(i as int)),
        decreases results.len() - i,
    {
        proof {
            lemma_sum_of_bounds(results@.take(i as int));
            assert(results@.take(i as int + 1).drop_last() == results@.take(i as int));
        }
        total = total + (results[i] as i128);
        i += 1;
    }
    assert(results@.take(results.len() as int) == results@);
    total
}

/// A result vector together with its aggregate. The aggregate is always the
/// sum of the vector: it is computed when the value is built and nothing can
/// change either part afterwards.
#[derive(Debug)]
pub struct TestResults {
    results: Vec<i64>,
    total: i128,
}

impl View for TestResults {
    type V = Seq<i64>;

    closed spec fn view(&self) -> Seq<i64> {
        self.results@
    }
}

impl Clone for TestResults {
    /// A copy with the same scores, and so the same total.
    fn clone(&self) -> (copy: Self)
        ensures
            copy@ == self@,
    {
        proof {
            use_type_invariant(self);
        }
        TestResults { results: self.results.clone(), total: self.total }
    }
}

impl TestResults {
    #[verifier::type_invariant]
    spec fn total_is_sum(&self) -> bool {
        self.total == sum_of(self.results@)
    }

    /// The aggregate by which two result vectors are ordered.
    pub open spec fn aggregate(&self) -> int {
        sum_of(self@)
    }

    /// Takes a vector of scores and records its sum.
    pub fn new(results: Vec<i64>) -> (made: Self)
        ensures
            made@ == results@,
    {
        let total = aggregate(&results);
        TestResults { results, total }
    }

    /// The scores, one per test case.
    pub fn results(&self) -> (results: &Vec<i64>)
        ensures
            results@ == self@,
    {
        &self.results
    }

    /// The sum of the scores.
    pub fn total(&self) -> (total: i128)
        ensures
            total == self.aggregate(),
    {
        proof {
            use_type_invariant(self);
        }
        self.total
    }

    /// How many scores there are.
    pub fn size(&self) -> (n: usize)
        ensures
            n == self@.len(),
    {
        self.results.len()
    }
}

} // verus!
