//! The training cases of the median problem: three small integers, and the
//! one of them that lies in the middle.

use crate::random::below;
use rand::rngs::ThreadRng;
use vstd::prelude::*;

verus! {

/// The least input a training case can hold.
pub const MIN_INPUT: i8 = -100;

/// The largest input a training case can hold.
pub const MAX_INPUT: i8 = 100;

/// The smaller of two integers.
pub open spec fn smaller(a: int, b: int) -> int {
    if a <= b {
        a
    } else {
        b
    }
}

/// The larger of two integers.
pub open spec fn larger(a: int, b: int) -> int {
    if a <= b {
        b
    } else {
        a
    }
}

/// The middle one of three integers.
pub open spec fn median_of(inputs: (i8, i8, i8)) -> int {
    larger(
        smaller(inputs.0 as int, inputs.1 as int),
        smaller(larger(inputs.0 as int, inputs.1 as int), inputs.2 as int),
    )
}

/// All three inputs lie between [`MIN_INPUT`] and [`MAX_INPUT`].
pub open spec fn in_range(inputs: (i8, i8, i8)) -> bool {
    &&& MIN_INPUT <= inputs.0 <= MAX_INPUT
    &&& MIN_INPUT <= inputs.1 <= MAX_INPUT
    &&& MIN_INPUT <= inputs.2 <= MAX_INPUT
}

/// The median is one of the three, and of the other two one is no larger
/// and one is no smaller.
pub proof fn lemma_median_is_in_the_middle(inputs: (i8, i8, i8))
    ensures
        ({
            let m = median_of(inputs);
            let (x, y, z) = inputs;
            ||| m == x && (y <= m <= z || z <= m <= y)
            ||| m == y && (x <= m <= z || z <= m <= x)
            ||| m == z && (x <= m <= y || y <= m <= x)
        }),
{
}

/// The middle one of three integers.
pub fn median(inputs: (i8, i8, i8)) -> (middle: i8)
    ensures
        middle == median_of(inputs),
{
    let (x, y, z) = inputs;
    let (low, high) = if x <= y {
        (x, y)
    } else {
        (y, x)
    };
    if z <= low {
        low
    } else if z <= high {
        z
    } else {
        high
    }
}

/// One input, drawn evenly from [`MIN_INPUT`] to [`MAX_INPUT`].
fn random_input(rng: &mut ThreadRng) -> (input: i8)
    ensures
        MIN_INPUT <= input <= MAX_INPUT,
{
    let offset = below(INPUT_SPAN, rng);
    input_at(offset)
}

/// The number of values that an input can take.
pub const INPUT_SPAN: usize = 201;

/// The input that lies `offset` above [`MIN_INPUT`]. A draw of an offset
/// below [`INPUT_SPAN`] becomes an input this way, so that every input
/// from [`MIN_INPUT`] to [`MAX_INPUT`] is as likely as any other.
pub fn input_at(offset: usize) -> (input: i8)
    requires
        offset < INPUT_SPAN,
    ensures
        input == MIN_INPUT + offset,
{
    (offset as i16 - 100) as i8
}

/// `num_cases` triples of inputs, each input drawn by itself.
pub fn training_inputs(num_cases: usize, rng: &mut ThreadRng) -> (inputs: Vec<(i8, i8, i8)>)
    ensures
        inputs@.len() == num_cases,
        forall|i: int| 0 <= i < inputs@.len() ==> in_range(#[trigger] inputs@[i]),
{
    let mut inputs: Vec<(i8, i8, i8)> = Vec::with_capacity(num_cases);
    let mut i: usize = 0;
    while i < num_cases
        invariant
            i <= num_cases,
            inputs@.len() == i,
            forall|k: int| 0 <= k < i ==> in_range(#[trigger] inputs@[k]),
        decreases num_cases - i,
    {
        let x = random_input(rng);
        let y = random_input(rng);
        let z = random_input(rng);
        inputs.push((x, y, z));
        i += 1;
    }
    inputs
}

/// `num_cases` training cases: random inputs, each with its median.
pub fn training_cases(num_cases: usize, rng: &mut ThreadRng) -> (cases: Vec<((i8, i8, i8), i8)>)
    ensures
        cases@.len() == num_cases,
        forall|i: int|
            0 <= i < cases@.len() ==> in_range((#[trigger] cases@[i]).0) && cases@[i].1
                == median_of(cases@[i].0),
{
    let inputs = training_inputs(num_cases, rng);
    let mut cases: Vec<((i8, i8, i8), i8)> = Vec::with_capacity(num_cases);
    let mut i: usize = 0;
    while i < num_cases
        invariant
            i <= num_cases,
            inputs@.len() == num_cases,
            forall|k: int| 0 <= k < inputs@.len() ==> in_range(#[trigger] inputs@[k]),
            cases@.len() == i,
            forall|k: int|
                0 <= k < i ==> in_range((#[trigger] cases@[k]).0) && cases@[k].1 == median_of(
                    cases@[k].0,
                ),
        decreases num_cases - i,
    {
        let input = inputs[i];
        cases.push((input, median(input)));
        i += 1;
    }
    cases
}

} // verus!
