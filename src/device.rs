use vstd::prelude::*;

use tosca::device::{DeviceEnvironment, DeviceKind};

use crate::economy::Economy;
use crate::energy::Energy;
use crate::route::RouteConfigs;

verus! {

/// Device information: one economy and one energy record.
#[derive(Debug, Clone)]
pub struct DeviceInfo<const C: usize, const R: usize, const E: usize, const CF: usize> {
    /// Economy information.
    pub economy: Economy<C, R>,
    /// Energy information.
    pub energy: Energy<E, CF>,
}

impl DeviceInfo<2, 2, 2, 2> {
    /// Creates a [`DeviceInfo`] whose records are both empty.
    pub fn empty() -> (r: Self)
        ensures
            r.economy.costs is None,
            r.economy.roi is None,
            r.energy.energy_efficiencies is None,
            r.energy.carbon_footprints is None,
            r.energy.water_use_efficiency is None,
    {
        DeviceInfo { energy: Energy::empty(), economy: Economy::empty() }
    }
}

impl<const C: usize, const R: usize, const E: usize, const CF: usize> DeviceInfo<C, R, E, CF> {
    /// Replaces the [`Energy`] record.
    pub fn add_energy<const E2: usize, const CF2: usize>(self, energy: Energy<E2, CF2>) -> (r: DeviceInfo<C, R, E2, CF2>)
        ensures
            r.energy == energy,
            r.economy == self.economy,
    {
        DeviceInfo { energy, economy: self.economy }
    }

    /// Replaces the [`Economy`] record.
    pub fn add_economy<const C2: usize, const R2: usize>(self, economy: Economy<C2, R2>) -> (r: DeviceInfo<C2, R2, E, CF>)
        ensures
            r.energy == self.energy,
            r.economy == economy,
    {
        DeviceInfo { energy: self.energy, economy }
    }
}

/// Device data: the whole descriptor of a device.
#[derive(Debug)]
pub struct DeviceData<const H: usize, const I: usize, const N: usize> {
    /// Device kind.
    pub kind: DeviceKind,
    /// Device environment.
    pub environment: DeviceEnvironment,
    /// Device main route.
    pub main_route: &'static str,
    /// All device route configurations.
    pub route_configs: RouteConfigs<H, I, N>,
}

impl<const H: usize, const I: usize, const N: usize> DeviceData<H, I, N> {
    /// Creates a [`DeviceData`].
    pub fn new(
        kind: DeviceKind,
        environment: DeviceEnvironment,
        main_route: &'static str,
        route_configs: RouteConfigs<H, I, N>,
    ) -> (r: Self)
        ensures
            r.kind == kind,
            r.environment == environment,
            r.main_route == main_route,
            r.route_configs == route_configs,
    {
        DeviceData { kind, environment, main_route, route_configs }
    }
}

} // verus!
