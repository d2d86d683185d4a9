//! Unit-typed physical quantities and fan-performance calculations.
//!
//! The engine represents every measurement as an exact rational scalar
//! wrapped in a dimension-specific newtype, rescales quantities between
//! physical configurations (diameter, speed, density) with the fan
//! affinity laws, interpolates a performance curve from measured
//! determination points, and locates operating points on that curve.

use vstd::prelude::*;

pub mod calculations;
pub mod fan_series;
pub mod operating_point;
pub mod ratio;
pub mod units;

verus! {

} // verus!
