//! Recombination of two genomes of one length.

use crate::bitstring::make_random;
use crate::random::below;
use rand::rngs::ThreadRng;
use vstd::prelude::*;

verus! {

/// The child that takes each gene from `a` where `from_first` is set, and
/// from `b` where it is not.
pub open spec fn crossed<T>(a: Seq<T>, b: Seq<T>, from_first: Seq<bool>) -> Seq<T> {
    Seq::new(
        a.len(),
        |i: int|
            if from_first[i] {
                a[i]
            } else {
                b[i]
            },
    )
}

/// A copy of `a` in which the genes at `lo <= i < hi` are those of `b`.
pub open spec fn spliced<T>(a: Seq<T>, b: Seq<T>, lo: int, hi: int) -> Seq<T> {
    Seq::new(
        a.len(),
        |i: int|
            if lo <= i < hi {
                b[i]
            } else {
                a[i]
            },
    )
}

/// `child` is as long as its parents and takes every gene from one of them
/// at the same position.
pub open spec fn is_uniform_cross<T>(a: Seq<T>, b: Seq<T>, child: Seq<T>) -> bool {
    &&& child.len() == a.len()
    &&& forall|i: int| 0 <= i < child.len() ==> #[trigger] child[i] == a[i] || child[i] == b[i]
}

/// `child` is `a` with one contiguous interval taken from `b`. The interval
/// lies between two positions of the genome, so it never holds the last gene.
pub open spec fn is_two_point_cross<T>(a: Seq<T>, b: Seq<T>, child: Seq<T>) -> bool {
    if a.len() == 0 {
        child == a
    } else {
        exists|lo: int, hi: int| 0 <= lo <= hi < a.len() && child == #[trigger] spliced(a, b, lo, hi)
    }
}

/// `child` is `a` except at the positions `lo <= i < hi`, where it is `b`.
pub open spec fn differs_only_between<T>(a: Seq<T>, b: Seq<T>, child: Seq<T>, lo: int, hi: int) -> bool {
    &&& child.len() == a.len()
    &&& 0 <= lo <= hi <= a.len()
    &&& forall|i: int| lo <= i < hi ==> #[trigger] child[i] == b[i]
    &&& forall|i: int| 0 <= i < lo || hi <= i < a.len() ==> #[trigger] child[i] == a[i]
}

/// A two-point cross differs from its first parent only inside one
/// contiguous interval, and inside that interval it matches the second.
pub proof fn lemma_two_point_cross_interval<T>(a: Seq<T>, b: Seq<T>, child: Seq<T>)
    requires
        a.len() == b.len(),
        is_two_point_cross(a, b, child),
    ensures
        exists|lo: int, hi: int| #[trigger] differs_only_between(a, b, child, lo, hi),
{
    if a.len() == 0 {
        assert(differs_only_between(a, b, child, 0, 0));
    } else {
        let (lo, hi) = choose|lo: int, hi: int|
            0 <= lo <= hi < a.len() && child == #[trigger] spliced(a, b, lo, hi);
        assert(differs_only_between(a, b, child, lo, hi));
    }
}

/// Whatever the mask, the child built from it is a uniform cross: it has
/// the length of its parents and every gene is that of one of them.
pub proof fn lemma_crossed_is_uniform_cross<T>(a: Seq<T>, b: Seq<T>, from_first: Seq<bool>)
    requires
        a.len() == b.len(),
        a.len() == from_first.len(),
    ensures
        is_uniform_cross(a, b, crossed(a, b, from_first)),
{
}

/// Builds the child that takes position `i` from `a` if `from_first[i]` is
/// set and from `b` otherwise.
pub fn cross_by_mask<T: Copy>(a: &Vec<T>, b: &Vec<T>, from_first: &Vec<bool>) -> (child: Vec<T>)
    requires
        a@.len() == b@.len(),
        a@.len() == from_first@.len(),
    ensures
        child@ == crossed(a@, b@, from_first@),
{
    let len = a.len();
    let mut child: Vec<T> = Vec::with_capacity(len);
    let mut i: usize = 0;
    while i < len
        invariant
            i <= len,
            len == a@.len(),
            len == b@.len(),
            len == from_first@.len(),
            child@.len() == i,
            forall|k: int| 0 <= k < i ==> child@[k] == crossed(a@, b@, from_first@)[k],
        decreases len - i,
    {
        child.push(if from_first[i] { a[i] } else { b[i] });
        i += 1;
    }
    child
}

/// Copies `a` and overwrites the genes between the two points with those of
/// `b`. The points may come in either order; the interval starts at the
/// smaller and stops before the larger.
pub fn splice_between<T: Copy>(a: &Vec<T>, b: &Vec<T>, first: usize, second: usize) -> (child: Vec<T>)
    requires
        a@.len() == b@.len(),
        first <= a@.len(),
        second <= a@.len(),
    ensures
        first <= second ==> child@ == spliced(a@, b@, first as int, second as int),
        second < first ==> child@ == spliced(a@, b@, second as int, first as int),
{
    let len = a.len();
    let (lo, hi) = if second < first { (second, first) } else { (first, second) };
    let mut child: Vec<T> = Vec::with_capacity(len);
    let mut i: usize = 0;
    while i < len
        invariant
            i <= len,
            len == a@.len(),
            len == b@.len(),
            child@.len() == i,
            forall|k: int| 0 <= k < i ==> child@[k] == spliced(a@, b@, lo as int, hi as int)[k],
        decreases len - i,
    {
        child.push(if lo <= i && i < hi { b[i] } else { a[i] });
        i += 1;
    }
    child
}

/// Recombination of two genomes of the same length.
pub trait LinearCrossover: Sized {
    /// What one position of the genome holds.
    type Gene;

    /// The genome as a sequence of genes.
    spec fn genes(&self) -> Seq<Self::Gene>;

    /// Chooses each gene from one parent or the other by a fair coin.
    fn uniform_xo(&self, other: &Self, rng: &mut ThreadRng) -> (child: Self)
        requires
            self.genes().len() == other.genes().len(),
        ensures
            is_uniform_cross(self.genes(), other.genes(), child.genes()),
    ;

    /// Draws two positions and replaces what lies between them with the
    /// other parent's genes.
    fn two_point_xo(&self, other: &Self, rng: &mut ThreadRng) -> (child: Self)
        requires
            self.genes().len() == other.genes().len(),
        ensures
            is_two_point_cross(self.genes(), other.genes(), child.genes()),
    ;
}

impl<T: Copy> LinearCrossover for Vec<T> {
    type Gene = T;

    open spec fn genes(&self) -> Seq<T> {
        self@
    }

    fn uniform_xo(&self, other: &Self, rng: &mut ThreadRng) -> (child: Self) {
        let from_first = make_random(self.len(), rng);
        cross_by_mask(self, other, &from_first)
    }

    fn two_point_xo(&self, other: &Self, rng: &mut ThreadRng) -> (child: Self) {
        let len = self.len();
        if len == 0 {
            let child = splice_between(self, other, 0, 0);
            assert(child@ == self@);
            return child;
        }
        let first = below(len, rng);
        let second = below(len, rng);
        let child = splice_between(self, other, first, second);
        proof {
            let lo: int = if second < first { second as int } else { first as int };
            let hi: int = if second < first { first as int } else { second as int };
            assert(child@ == spliced(self@, other@, lo, hi));
        }
        child
    }
}

} // verus!
