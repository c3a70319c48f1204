use vstd::prelude::*;

use tosca::energy::{CarbonFootprint, EnergyEfficiency, WaterUseEfficiency};

use crate::collections::OutputSet;

pub use tosca::energy::EnergyClass;

verus! {

/// A collection of energy efficiencies.
pub type EnergyEfficiencies<const E: usize> = OutputSet<EnergyEfficiency, E>;

/// A collection of carbon footprints.
pub type CarbonFootprints<const CF: usize> = OutputSet<CarbonFootprint, CF>;

/// Energy information of a device: each group is present or absent on its own.
#[derive(Debug, Clone)]
pub struct Energy<const E: usize, const CF: usize> {
    /// Energy efficiencies.
    pub energy_efficiencies: Option<EnergyEfficiencies<E>>,
    /// Carbon footprints.
    pub carbon_footprints: Option<CarbonFootprints<CF>>,
    /// Water-use efficiency.
    pub water_use_efficiency: Option<WaterUseEfficiency>,
}

impl<const E: usize, const CF: usize> Energy<E, CF> {
    /// Creates an empty [`Energy`].
    pub fn empty() -> (r: Self)
        ensures
            r.energy_efficiencies is None,
            r.carbon_footprints is None,
            r.water_use_efficiency is None,
    {
        Energy { energy_efficiencies: None, carbon_footprints: None, water_use_efficiency: None }
    }

    /// Creates an [`Energy`] holding energy efficiencies only.
    pub fn init_with_energy_efficiencies(energy_efficiencies: EnergyEfficiencies<E>) -> (r: Energy<E, 2>)
        ensures
            r.energy_efficiencies == Some(energy_efficiencies),
            r.carbon_footprints is None,
            r.water_use_efficiency is None,
    {
        Energy {
            energy_efficiencies: Some(energy_efficiencies),
            carbon_footprints: None,
            water_use_efficiency: None,
        }
    }

    /// Creates an [`Energy`] holding carbon footprints only.
    pub fn init_with_carbon_footprints(carbon_footprints: CarbonFootprints<CF>) -> (r: Energy<2, CF>)
        ensures
            r.energy_efficiencies is None,
            r.carbon_footprints == Some(carbon_footprints),
            r.water_use_efficiency is None,
    {
        Energy {
            energy_efficiencies: None,
            carbon_footprints: Some(carbon_footprints),
            water_use_efficiency: None,
        }
    }

    /// Creates an [`Energy`] holding a water-use efficiency only.
    pub fn init_with_water_use_efficiency(water_use_efficiency: WaterUseEfficiency) -> (r: Self)
        ensures
            r.energy_efficiencies is None,
            r.carbon_footprints is None,
            r.water_use_efficiency == Some(water_use_efficiency),
    {
        Energy {
            energy_efficiencies: None,
            carbon_footprints: None,
            water_use_efficiency: Some(water_use_efficiency),
        }
    }

    /// Sets the energy efficiencies, and with them their capacity.
    pub fn energy_efficiencies<const E2: usize>(self, energy_efficiencies: EnergyEfficiencies<E2>) -> (r: Energy<E2, CF>)
        ensures
            r.energy_efficiencies == Some(energy_efficiencies),
            r.carbon_footprints == self.carbon_footprints,
            r.water_use_efficiency == self.water_use_efficiency,
    {
        Energy {
            energy_efficiencies: Some(energy_efficiencies),
            carbon_footprints: self.carbon_footprints,
            water_use_efficiency: self.water_use_efficiency,
        }
    }

    /// Sets the carbon footprints, and with them their capacity.
    pub fn carbon_footprints<const CF2: usize>(self, carbon_footprints: CarbonFootprints<CF2>) -> (r: Energy<E, CF2>)
        ensures
            r.energy_efficiencies == self.energy_efficiencies,
            r.carbon_footprints == Some(carbon_footprints),
            r.water_use_efficiency == self.water_use_efficiency,
    {
        Energy {
            energy_efficiencies: self.energy_efficiencies,
            carbon_footprints: Some(carbon_footprints),
            water_use_efficiency: self.water_use_efficiency,
        }
    }

    /// Sets the water-use efficiency.
    pub fn water_use_efficiency(self, water_use_efficiency: WaterUseEfficiency) -> (r: Self)
        ensures
            r.energy_efficiencies == self.energy_efficiencies,
            r.carbon_footprints == self.carbon_footprints,
            r.water_use_efficiency == Some(water_use_efficiency),
    {
        let mut energy = self;
        energy.water_use_efficiency = Some(water_use_efficiency);
        energy
    }

    /// Checks whether every group is absent.
    pub fn is_empty(&self) -> (r: bool)
        ensures
            r == (self.energy_efficiencies is None && self.carbon_footprints is None
                && self.water_use_efficiency is None),
    {
        self.energy_efficiencies.is_none() && self.carbon_footprints.is_none()
            && self.water_use_efficiency.is_none()
    }
}

} // verus!
