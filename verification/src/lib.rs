//! An engine for evolving populations of candidate solutions.
//!
//! Candidates are bitstrings, scored directly, or small stack programs, run
//! on the machine of [`push_vm`]. A child is made by a pipeline of
//! [`operator`]s: select, copy the genome, recombine, mutate, score.
//!
//! Every function carries a contract that Verus proves. The calls into
//! `rand` and `rayon`, and two into `std` for text, sit behind a handful of
//! items in [`random`], [`population`] and [`bitstring`] whose contracts
//! are taken on trust; each says so in its documentation.

pub mod bitstring;
pub mod child_maker;
pub mod crossover;
pub mod generation;
pub mod individual;
pub mod instruction;
pub mod median;
pub mod mutation;
pub mod operator;
pub mod ordering;
pub mod population;
pub mod push_vm;
pub mod random;
pub mod test_results;
