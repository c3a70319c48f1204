use vstd::prelude::*;

use tosca::economy::{Cost, Roi};
use tosca::energy::{CarbonFootprint, EnergyEfficiency};
use tosca::hazards::Hazard;
use tosca::route::RestKind;

verus! {

/// An element that a bounded collection can hold.
///
/// Two elements are the same entry of a collection exactly when their
/// identities agree; `same` decides that at run time.
pub trait Identified: Sized {
    /// What tells two elements apart.
    type Id;

    spec fn id(&self) -> Self::Id;

    fn same(&self, other: &Self) -> (r: bool)
        ensures
            r == (self.id() == other.id()),
    ;
}

impl Identified for &'static str {
    type Id = Seq<char>;

    open spec fn id(&self) -> Seq<char> {
        (*self)@
    }

    fn same(&self, other: &Self) -> (r: bool) {
        crate::vocabulary::text_eq(*self, *other)
    }
}

impl Identified for u8 {
    type Id = u8;

    open spec fn id(&self) -> u8 {
        *self
    }

    fn same(&self, other: &Self) -> (r: bool) {
        *self == *other
    }
}

impl Identified for u16 {
    type Id = u16;

    open spec fn id(&self) -> u16 {
        *self
    }

    fn same(&self, other: &Self) -> (r: bool) {
        *self == *other
    }
}

impl Identified for u32 {
    type Id = u32;

    open spec fn id(&self) -> u32 {
        *self
    }

    fn same(&self, other: &Self) -> (r: bool) {
        *self == *other
    }
}

impl Identified for u64 {
    type Id = u64;

    open spec fn id(&self) -> u64 {
        *self
    }

    fn same(&self, other: &Self) -> (r: bool) {
        *self == *other
    }
}

impl Identified for Hazard {
    type Id = Hazard;

    open spec fn id(&self) -> Hazard {
        *self
    }

    fn same(&self, other: &Self) -> (r: bool) {
        *self == *other
    }
}

impl Identified for RestKind {
    type Id = RestKind;

    open spec fn id(&self) -> RestKind {
        *self
    }

    fn same(&self, other: &Self) -> (r: bool) {
        *self == *other
    }
}

impl Identified for Cost {
    type Id = Cost;

    open spec fn id(&self) -> Cost {
        *self
    }

    fn same(&self, other: &Self) -> (r: bool) {
        *self == *other
    }
}

impl Identified for Roi {
    type Id = Roi;

    open spec fn id(&self) -> Roi {
        *self
    }

    fn same(&self, other: &Self) -> (r: bool) {
        *self == *other
    }
}

impl Identified for EnergyEfficiency {
    type Id = EnergyEfficiency;

    open spec fn id(&self) -> EnergyEfficiency {
        *self
    }

    fn same(&self, other: &Self) -> (r: bool) {
        *self == *other
    }
}

impl Identified for CarbonFootprint {
    type Id = CarbonFootprint;

    open spec fn id(&self) -> CarbonFootprint {
        *self
    }

    fn same(&self, other: &Self) -> (r: bool) {
        *self == *other
    }
}

} // verus!
