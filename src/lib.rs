//! The integer side of a 2D disc simulator: which response two overlapping
//! discs get, the order in which pairs are tested for overlap within a step,
//! and how a new disc is placed, sized and colored.
use vstd::prelude::*;

pub mod mode;
pub mod pairs;
pub mod spawn;

verus! {

} // verus!
