//! The order of result vectors and of individuals.
//!
//! Two result vectors compare as their aggregates do, and two individuals
//! as their results do. Individuals are equal when genome and results are.

use crate::individual::Individual;
use crate::test_results::TestResults;
use std::cmp::Ordering;
use vstd::prelude::*;
use vstd::std_specs::cmp::{PartialEqSpec, PartialEqSpecImpl, PartialOrdSpec, PartialOrdSpecImpl};

verus! {

/// How two aggregates compare.
pub open spec fn order_of(left: int, right: int) -> Ordering {
    if left < right {
        Ordering::Less
    } else if left > right {
        Ordering::Greater
    } else {
        Ordering::Equal
    }
}

impl PartialEq for TestResults {
    fn eq(&self, other: &Self) -> (equal: bool) {
        self.total() == other.total()
    }
}

impl PartialEqSpecImpl for TestResults {
    open spec fn obeys_eq_spec() -> bool {
        true
    }

    open spec fn eq_spec(&self, other: &Self) -> bool {
        self.aggregate() == other.aggregate()
    }
}

impl Eq for TestResults {

}

impl PartialOrd for TestResults {
    fn partial_cmp(&self, other: &Self) -> (order: Option<Ordering>) {
        let left = self.total();
        let right = other.total();
        if left < right {
            Some(Ordering::Less)
        } else if left > right {
            Some(Ordering::Greater)
        } else {
            Some(Ordering::Equal)
        }
    }
}

impl PartialOrdSpecImpl for TestResults {
    open spec fn obeys_partial_cmp_spec() -> bool {
        true
    }

    open spec fn partial_cmp_spec(&self, other: &Self) -> Option<Ordering> {
        Some(order_of(self.aggregate(), other.aggregate()))
    }
}

impl<G: PartialEq, R: PartialEq> PartialEq for Individual<G, R> {
    fn eq(&self, other: &Self) -> (equal: bool) {
        self.genome == other.genome && self.test_results == other.test_results
    }
}

impl<G: PartialEq, R: PartialEq> PartialEqSpecImpl for Individual<G, R> {
    open spec fn obeys_eq_spec() -> bool {
        G::obeys_eq_spec() && R::obeys_eq_spec()
    }

    open spec fn eq_spec(&self, other: &Self) -> bool {
        self.genome.eq_spec(&other.genome) && self.test_results.eq_spec(&other.test_results)
    }
}

impl<G: Eq, R: Eq> Eq for Individual<G, R> {

}

impl<G: PartialEq, R: PartialOrd> PartialOrd for Individual<G, R> {
    fn partial_cmp(&self, other: &Self) -> (order: Option<Ordering>) {
        self.test_results.partial_cmp(&other.test_results)
    }
}

impl<G: PartialEq, R: PartialOrd> PartialOrdSpecImpl for Individual<G, R> {
    open spec fn obeys_partial_cmp_spec() -> bool {
        R::obeys_partial_cmp_spec()
    }

    open spec fn partial_cmp_spec(&self, other: &Self) -> Option<Ordering> {
        self.test_results.partial_cmp_spec(&other.test_results)
    }
}

} // verus!
