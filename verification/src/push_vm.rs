//! The virtual machine on which evolved programs run.

pub mod push_state;
pub mod stack;

use vstd::prelude::*;

verus! {

/// The integers of the machine.
pub type PushInteger = i64;

} // verus!
