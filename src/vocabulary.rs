use vstd::prelude::*;

verus! {

// Values that are only stored and compared: opaque to the proofs.
#[verifier::external_type_specification]
#[verifier::external_body]
pub struct ExHazard(tosca::hazards::Hazard);

#[verifier::external_type_specification]
#[verifier::external_body]
pub struct ExCost(tosca::economy::Cost);

#[verifier::external_type_specification]
#[verifier::external_body]
pub struct ExRoi(tosca::economy::Roi);

#[verifier::external_type_specification]
#[verifier::external_body]
pub struct ExEnergyEfficiency(tosca::energy::EnergyEfficiency);

#[verifier::external_type_specification]
#[verifier::external_body]
pub struct ExCarbonFootprint(tosca::energy::CarbonFootprint);

#[verifier::external_type_specification]
#[verifier::external_body]
pub struct ExWaterUseEfficiency(tosca::energy::WaterUseEfficiency);

#[verifier::external_type_specification]
#[verifier::external_body]
pub struct ExDeviceKind(tosca::device::DeviceKind);

#[verifier::external_type_specification]
#[verifier::external_body]
pub struct ExDeviceEnvironment(tosca::device::DeviceEnvironment);

// Field-less enums whose variants the descriptors pick: their variants are
// read from the domain model as it is.
#[verifier::external_type_specification]
pub struct ExRestKind(tosca::route::RestKind);

#[verifier::external_type_specification]
pub struct ExResponseKind(tosca::response::ResponseKind);

/// Relies on `str`'s `PartialEq`: two slices are equal exactly when they hold
/// the same characters.
pub assume_specification[ <str as core::cmp::PartialEq>::eq ](x: &str, y: &str) -> (r: bool)
    ensures
        r == (x@ == y@),
;

/// Relies on the `PartialEq` that `Hazard` derives: equal exactly when the
/// variants are the same.
pub assume_specification[ <tosca::hazards::Hazard as core::cmp::PartialEq>::eq ](
    x: &tosca::hazards::Hazard,
    y: &tosca::hazards::Hazard,
) -> (r: bool)
    ensures
        r == (*x == *y),
;

/// Relies on the `PartialEq` that `RestKind` derives: equal exactly when the
/// variants are the same.
pub assume_specification[ <tosca::route::RestKind as core::cmp::PartialEq>::eq ](
    x: &tosca::route::RestKind,
    y: &tosca::route::RestKind,
) -> (r: bool)
    ensures
        r == (*x == *y),
;

/// Relies on the `PartialEq` that `Cost` derives: equal exactly when amount
/// and timespan are.
pub assume_specification[ <tosca::economy::Cost as core::cmp::PartialEq>::eq ](
    x: &tosca::economy::Cost,
    y: &tosca::economy::Cost,
) -> (r: bool)
    ensures
        r == (*x == *y),
;

/// Relies on the `PartialEq` that `Roi` derives: equal exactly when years and
/// energy class are.
pub assume_specification[ <tosca::economy::Roi as core::cmp::PartialEq>::eq ](
    x: &tosca::economy::Roi,
    y: &tosca::economy::Roi,
) -> (r: bool)
    ensures
        r == (*x == *y),
;

/// Relies on the `PartialEq` that `EnergyEfficiency` derives: equal exactly
/// when percentage and energy class are.
pub assume_specification[ <tosca::energy::EnergyEfficiency as core::cmp::PartialEq>::eq ](
    x: &tosca::energy::EnergyEfficiency,
    y: &tosca::energy::EnergyEfficiency,
) -> (r: bool)
    ensures
        r == (*x == *y),
;

/// Relies on the `PartialEq` that `CarbonFootprint` derives: equal exactly
/// when percentage and energy class are.
pub assume_specification[ <tosca::energy::CarbonFootprint as core::cmp::PartialEq>::eq ](
    x: &tosca::energy::CarbonFootprint,
    y: &tosca::energy::CarbonFootprint,
) -> (r: bool)
    ensures
        r == (*x == *y),
;

/// Compares two texts by their characters.
pub fn text_eq(a: &str, b: &str) -> (r: bool)
    ensures
        r == (a@ == b@),
{
    <str as core::cmp::PartialEq>::eq(a, b)
}

} // verus!
