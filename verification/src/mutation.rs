//! Mutation of bitstrings, position by position.

use crate::bitstring::Bitstring;
use crate::random::Probability;
use rand::rngs::ThreadRng;
use vstd::prelude::*;

verus! {

/// The bits of `bits`, inverted wherever `mask` is set.
pub open spec fn flipped(bits: Seq<bool>, mask: Seq<bool>) -> Seq<bool> {
    Seq::new(bits.len(), |i: int| bits[i] != mask[i])
}

/// Every bit inverted.
pub open spec fn complement(bits: Seq<bool>) -> Seq<bool> {
    Seq::new(bits.len(), |i: int| !bits[i])
}

/// Flipping no bit changes nothing, and flipping every bit gives the
/// complement.
pub proof fn lemma_flipped_extremes(bits: Seq<bool>, mask: Seq<bool>)
    requires
        bits.len() == mask.len(),
    ensures
        (forall|i: int| 0 <= i < mask.len() ==> !mask[i]) ==> flipped(bits, mask) == bits,
        (forall|i: int| 0 <= i < mask.len() ==> mask[i]) ==> flipped(bits, mask) == complement(
            bits,
        ),
        complement(complement(bits)) == bits,
{
    if forall|i: int| 0 <= i < mask.len() ==> !mask[i] {
        assert(flipped(bits, mask) =~= bits);
    }
    if forall|i: int| 0 <= i < mask.len() ==> mask[i] {
        assert(flipped(bits, mask) =~= complement(bits));
    }
    assert(complement(complement(bits)) =~= bits);
}

/// Inverts the bits at the positions where `mask` is set.
pub fn flip_by_mask(bits: &Vec<bool>, mask: &Vec<bool>) -> (child: Vec<bool>)
    requires
        bits@.len() == mask@.len(),
    ensures
        child@ == flipped(bits@, mask@),
{
    let len = bits.len();
    let mut child: Vec<bool> = Vec::with_capacity(len);
    let mut i: usize = 0;
    while i < len
        invariant
            i <= len,
            len == bits@.len(),
            len == mask@.len(),
            child@.len() == i,
            forall|k: int| 0 <= k < i ==> child@[k] == flipped(bits@, mask@)[k],
        decreases len - i,
    {
        child.push(bits[i] != mask[i]);
        i += 1;
    }
    child
}

/// Mutation of a genome, position by position.
pub trait LinearMutation: Sized {
    /// The genome as a sequence of bits.
    spec fn bits(&self) -> Seq<bool>;

    /// Flips each bit with the given rate, one draw per bit. At a rate of
    /// zero nothing changes; at a rate of one every bit flips.
    fn mutate_with_rate(&self, mutation_rate: Probability, rng: &mut ThreadRng) -> (child: Self)
        ensures
            child.bits().len() == self.bits().len(),
            mutation_rate.numerator() == 0 ==> child.bits() == self.bits(),
            mutation_rate.numerator() == mutation_rate.denominator() ==> child.bits()
                == complement(self.bits()),
    ;

    /// Flips each bit with a rate of one over the length of the genome.
    fn mutate_one_over_length(&self, rng: &mut ThreadRng) -> (child: Self)
        ensures
            child.bits().len() == self.bits().len(),
            self.bits().len() <= 1 ==> child.bits() == complement(self.bits()),
    ;
}

impl LinearMutation for Bitstring {
    open spec fn bits(&self) -> Seq<bool> {
        self@
    }

    fn mutate_with_rate(&self, mutation_rate: Probability, rng: &mut ThreadRng) -> (child: Self) {
        let len = self.len();
        let mut mask: Vec<bool> = Vec::with_capacity(len);
        let mut i: usize = 0;
        while i < len
            invariant
                i <= len,
                mask@.len() == i,
                mutation_rate.numerator() == 0 ==> forall|k: int| 0 <= k < i ==> !mask@[k],
                mutation_rate.numerator() == mutation_rate.denominator() ==> forall|k: int|
                    0 <= k < i ==> mask@[k],
            decreases len - i,
        {
            let flip = mutation_rate.draw(rng);
            mask.push(flip);
            i += 1;
        }
        flip_by_mask(self, &mask)
    }

    fn mutate_one_over_length(&self, rng: &mut ThreadRng) -> (child: Self) {
        self.mutate_with_rate(Probability::one_over(self.len()), rng)
    }
}

} // verus!
