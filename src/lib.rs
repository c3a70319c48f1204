//! Fixed-capacity, allocation-bounded descriptors that a small device uses to
//! describe its routes, their parameters and hazards, and its energy and
//! economy data to a controller.

/// Bounded, insertion-ordered collections in their three visibility forms.
pub mod collections;
/// Description of a device with its routes information.
pub mod device;
/// Information about the economy device aspects.
pub mod economy;
/// The structure that descriptors are encoded into.
pub mod encoding;
/// Information about the energy device aspects.
pub mod energy;
/// Error handling.
pub mod error;
/// Hazards descriptions and methods.
pub mod hazards;
/// How two elements of a collection are told apart.
pub mod identity;
/// Route input parameters.
pub mod parameters;
/// All supported responses returned by a device action.
pub mod response;
/// Definition of device routes.
pub mod route;
/// A fixed-capacity text.
pub mod string;
/// The value types that the descriptors carry, as the domain model defines them.
pub mod vocabulary;

mod maps;
mod sets;
