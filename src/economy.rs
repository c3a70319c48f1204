use vstd::prelude::*;

use tosca::economy::{Cost, Roi};

use crate::collections::OutputSet;

pub use tosca::economy::CostTimespan;

verus! {

/// A collection of costs.
pub type Costs<const C: usize> = OutputSet<Cost, C>;

/// A collection of returns on investment.
pub type Rois<const R: usize> = OutputSet<Roi, R>;

/// Economy data for a device: each group is present or absent on its own.
#[derive(Debug, Clone)]
pub struct Economy<const C: usize, const R: usize> {
    /// Costs.
    pub costs: Option<Costs<C>>,
    /// Return on investments (ROI).
    pub roi: Option<Rois<R>>,
}

impl<const C: usize, const R: usize> Economy<C, R> {
    /// Creates an empty [`Economy`].
    pub fn empty() -> (r: Self)
        ensures
            r.costs is None,
            r.roi is None,
    {
        Economy { costs: None, roi: None }
    }

    /// Creates an [`Economy`] holding costs only.
    pub fn init_with_costs(costs: Costs<C>) -> (r: Economy<C, 2>)
        ensures
            r.costs == Some(costs),
            r.roi is None,
    {
        Economy { costs: Some(costs), roi: None }
    }

    /// Creates an [`Economy`] holding returns on investment only.
    pub fn init_with_roi(roi: Rois<R>) -> (r: Economy<2, R>)
        ensures
            r.costs is None,
            r.roi == Some(roi),
    {
        Economy { costs: None, roi: Some(roi) }
    }

    /// Sets the costs, and with them the costs capacity.
    pub fn costs<const C2: usize>(self, costs: Costs<C2>) -> (r: Economy<C2, R>)
        ensures
            r.costs == Some(costs),
            r.roi == self.roi,
    {
        Economy { costs: Some(costs), roi: self.roi }
    }

    /// Sets the returns on investment, and with them their capacity.
    pub fn rois<const R2: usize>(self, roi: Rois<R2>) -> (r: Economy<C, R2>)
        ensures
            r.costs == self.costs,
            r.roi == Some(roi),
    {
        Economy { costs: self.costs, roi: Some(roi) }
    }

    /// Checks whether every group is absent.
    pub fn is_empty(&self) -> (r: bool)
        ensures
            r == (self.costs is None && self.roi is None),
    {
        self.costs.is_none() && self.roi.is_none()
    }
}

} // verus!
