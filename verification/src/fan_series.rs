//! The catalog model of a family of geometrically similar fans.

use vstd::prelude::*;

verus! {

/// How air moves through the impeller of every fan in a series.
#[derive(Clone, Copy, Debug, PartialEq, Eq, Structural)]
pub enum FanType {
    Centrifugal,
    MixedFlow,
    Axial,
    InducedFlow,
}

/// A fan series: one geometrically similar family, identified by its
/// catalog id; determination points measured on one member rescale to the
/// others by the affinity laws.
#[derive(Clone, Debug, PartialEq, Eq)]
pub struct FanSeries {
    pub id: String,
    pub fan_type: FanType,
}

impl FanSeries {
    pub fn new(id: String, fan_type: FanType) -> (r: FanSeries)
        ensures
            r.id@ == id@,
            r.fan_type == fan_type,
    {
        FanSeries { id, fan_type }
    }
}

} // verus!
