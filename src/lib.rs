//! Sets of zero or one element that speak the same set protocol as the
//! interval types built on top of them.
use vstd::prelude::*;

pub mod ops;
pub mod optional;

verus! {

} // verus!
