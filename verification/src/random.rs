//! The draws that the engine takes from `rand`.
//!
//! The generator is opaque to Verus, so nothing here says which value a draw
//! returns: the contracts state only what holds of every outcome.

use rand::rngs::ThreadRng;
use rand::Rng;
use vstd::prelude::*;

verus! {

/// `rand::rngs::ThreadRng`, the handle to the calling thread's generator.
/// Verus carries values of it around without looking inside.
#[verifier::external_type_specification]
#[verifier::external_body]
pub struct ExThreadRng(ThreadRng);

/// Calls `rand::Rng::gen_ratio`, which is true with probability
/// `numerator / denominator`. It panics on a zero denominator and on a
/// numerator above the denominator, so both are excluded. What is claimed of
/// the result is what `rand` documents of the two extremes: a zero numerator
/// never hits, and a numerator equal to the denominator always hits.
#[verifier::external_body]
fn chance(numerator: u32, denominator: u32, rng: &mut ThreadRng) -> (hit: bool)
    requires
        0 < denominator,
        numerator <= denominator,
    ensures
        numerator == 0 ==> !hit,
        numerator == denominator ==> hit,
{
    rng.gen_ratio(numerator, denominator)
}

/// Calls `rand::Rng::gen_range` on the half-open range `0..bound`. It panics
/// on an empty range, so `bound` is positive. The draw lies in the range.
#[verifier::external_body]
pub(crate) fn below(bound: usize, rng: &mut ThreadRng) -> (index: usize)
    requires
        0 < bound,
    ensures
        index < bound,
{
    rng.gen_range(0..bound)
}

/// How often a draw hits: `numerator` times in `denominator`.
#[derive(Clone, Copy, Debug)]
pub struct Probability {
    numerator: u32,
    denominator: u32,
}

impl Probability {
    #[verifier::type_invariant]
    spec fn is_probability(&self) -> bool {
        0 < self.denominator && self.numerator <= self.denominator
    }

    /// The number of hits expected in `denominator()` draws.
    pub closed spec fn numerator(&self) -> nat {
        self.numerator as nat
    }

    /// The number of draws in which `numerator()` hits are expected.
    pub closed spec fn denominator(&self) -> nat {
        self.denominator as nat
    }

    /// The rate `numerator / denominator`, if that is a probability.
    pub fn new(numerator: u32, denominator: u32) -> (rate: Option<Self>)
        ensures
            rate is Some <==> 0 < denominator && numerator <= denominator,
            rate matches Some(r) ==> r.numerator() == numerator && r.denominator() == denominator,
    {
        if 0 < denominator && numerator <= denominator {
            Some(Probability { numerator, denominator })
        } else {
            None
        }
    }

    /// The rate at which no draw ever hits.
    pub fn never() -> (rate: Self)
        ensures
            rate.numerator() == 0,
            rate.denominator() == 1,
    {
        Probability { numerator: 0, denominator: 1 }
    }

    /// The rate at which every draw hits.
    pub fn always() -> (rate: Self)
        ensures
            rate.numerator() == 1,
            rate.denominator() == 1,
    {
        Probability { numerator: 1, denominator: 1 }
    }

    /// The rate of a fair coin.
    pub fn fair() -> (rate: Self)
        ensures
            rate.numerator() == 1,
            rate.denominator() == 2,
    {
        Probability { numerator: 1, denominator: 2 }
    }

    /// One hit expected in `length` draws. A length of zero gets the rate of
    /// a length of one, and a length beyond `u32::MAX` counts as `u32::MAX`.
    pub fn one_over(length: usize) -> (rate: Self)
        ensures
            rate.numerator() == 1,
            rate.denominator() == if length == 0 {
                1
            } else if length > u32::MAX {
                u32::MAX as nat
            } else {
                length as nat
            },
    {
        let denominator: u32 = if length == 0 {
            1
        } else if length > u32::MAX as usize {
            u32::MAX
        } else {
            length as u32
        };
        Probability { numerator: 1, denominator }
    }

    /// Draws once.
    pub fn draw(&self, rng: &mut ThreadRng) -> (hit: bool)
        ensures
            self.numerator() == 0 ==> !hit,
            self.numerator() == self.denominator() ==> hit,
    {
        proof {
            use_type_invariant(self);
        }
        chance(self.numerator, self.denominator, rng)
    }
}

} // verus!
