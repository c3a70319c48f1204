use vstd::prelude::*;

use crate::collections::OutputSet;

pub use tosca::hazards::{Category, Hazard, HazardData, ALL_HAZARDS};

verus! {

/// A collection of [`Hazard`]s, each held once, in the order they were added.
pub type Hazards<const N: usize> = OutputSet<Hazard, N>;

} // verus!
