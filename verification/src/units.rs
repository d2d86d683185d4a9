//! The unit-typed quantities of a fan performance test.
//!
//! Each dimension gets its own wrapper, so quantities of different
//! dimensions can never be mixed; the affinity-law exponents live in the
//! `ScalesWith` implementation for each quantity/context pair:
//! by diameter, airflow goes with the cube, pressure with the square and
//! power with the fifth power; by speed, airflow is linear, pressure goes
//! with the square and power with the cube; by density, pressure and
//! power are linear and airflow does not change.

use vstd::prelude::*;

use crate::calculations::scale_ratio;
use crate::calculations::Quantity;
use crate::calculations::ScaleError;
use crate::calculations::ScalesTo;
use crate::calculations::ScalesWith;
use crate::ratio::rat_eq;
use crate::ratio::Ratio;

verus! {

/// Volumetric airflow at the fan inlet, in cubic feet per minute.
#[derive(Clone, Copy, Debug, PartialEq, Eq, Structural)]
pub struct InletAirflow(Ratio);

impl Quantity for InletAirflow {
    closed spec fn val(self) -> (int, int) {
        self.0@
    }

    fn value(&self) -> (r: Ratio) {
        self.0
    }

    fn from_ratio(v: Ratio) -> (r: Self) {
        InletAirflow(v)
    }
}

impl InletAirflow {
    pub fn new(cfm: Ratio) -> (r: Self)
        requires
            cfm.wf(),
        ensures
            r.val() == cfm@,
            r.wf(),
    {
        InletAirflow(cfm)
    }

    pub fn from_cfm(cfm: Ratio) -> (r: Self)
        requires
            cfm.wf(),
        ensures
            r.val() == cfm@,
            r.wf(),
    {
        InletAirflow(cfm)
    }

    pub fn cfm(&self) -> (r: Ratio)
        requires
            self.wf(),
        ensures
            r@ == self.val(),
            r.wf(),
    {
        self.0
    }
}

/// Volumetric airflow at the fan outlet, in cubic feet per minute.
#[derive(Clone, Copy, Debug, PartialEq, Eq, Structural)]
pub struct OutletAirflow(Ratio);

impl Quantity for OutletAirflow {
    closed spec fn val(self) -> (int, int) {
        self.0@
    }

    fn value(&self) -> (r: Ratio) {
        self.0
    }

    fn from_ratio(v: Ratio) -> (r: Self) {
        OutletAirflow(v)
    }
}

impl OutletAirflow {
    pub fn from_cfm(cfm: Ratio) -> (r: Self)
        requires
            cfm.wf(),
        ensures
            r.val() == cfm@,
            r.wf(),
    {
        OutletAirflow(cfm)
    }

    pub fn cfm(&self) -> (r: Ratio)
        requires
            self.wf(),
        ensures
            r@ == self.val(),
            r.wf(),
    {
        self.0
    }
}

/// Static pressure, in inches of water gauge.
#[derive(Clone, Copy, Debug, PartialEq, Eq, Structural)]
pub struct StaticPressure(Ratio);

impl Quantity for StaticPressure {
    closed spec fn val(self) -> (int, int) {
        self.0@
    }

    fn value(&self) -> (r: Ratio) {
        self.0
    }

    fn from_ratio(v: Ratio) -> (r: Self) {
        StaticPressure(v)
    }
}

impl StaticPressure {
    pub fn from_inches_wg(p: Ratio) -> (r: Self)
        requires
            p.wf(),
        ensures
            r.val() == p@,
            r.wf(),
    {
        StaticPressure(p)
    }

    pub fn inches_wg(&self) -> (r: Ratio)
        requires
            self.wf(),
        ensures
            r@ == self.val(),
            r.wf(),
    {
        self.0
    }
}

/// Brake horsepower drawn at the fan shaft.
#[derive(Clone, Copy, Debug, PartialEq, Eq, Structural)]
pub struct BrakeHorsepower(Ratio);

impl Quantity for BrakeHorsepower {
    closed spec fn val(self) -> (int, int) {
        self.0@
    }

    fn value(&self) -> (r: Ratio) {
        self.0
    }

    fn from_ratio(v: Ratio) -> (r: Self) {
        BrakeHorsepower(v)
    }
}

impl BrakeHorsepower {
    pub fn from_hp(hp: Ratio) -> (r: Self)
        requires
            hp.wf(),
        ensures
            r.val() == hp@,
            r.wf(),
    {
        BrakeHorsepower(hp)
    }

    pub fn hp(&self) -> (r: Ratio)
        requires
            self.wf(),
        ensures
            r@ == self.val(),
            r.wf(),
    {
        self.0
    }
}

/// Fan rotational speed, in revolutions per minute.
#[derive(Clone, Copy, Debug, PartialEq, Eq, Structural)]
pub struct FanSpeed(Ratio);

impl Quantity for FanSpeed {
    closed spec fn val(self) -> (int, int) {
        self.0@
    }

    fn value(&self) -> (r: Ratio) {
        self.0
    }

    fn from_ratio(v: Ratio) -> (r: Self) {
        FanSpeed(v)
    }
}

impl FanSpeed {
    pub fn from_rpm(rpm: Ratio) -> (r: Self)
        requires
            rpm.wf(),
        ensures
            r.val() == rpm@,
            r.wf(),
    {
        FanSpeed(rpm)
    }

    pub fn rpm(&self) -> (r: Ratio)
        requires
            self.wf(),
        ensures
            r@ == self.val(),
            r.wf(),
    {
        self.0
    }
}

/// Fan impeller diameter, in inches.
#[derive(Clone, Copy, Debug, PartialEq, Eq, Structural)]
pub struct FanDiameter(Ratio);

impl Quantity for FanDiameter {
    closed spec fn val(self) -> (int, int) {
        self.0@
    }

    fn value(&self) -> (r: Ratio) {
        self.0
    }

    fn from_ratio(v: Ratio) -> (r: Self) {
        FanDiameter(v)
    }
}

impl FanDiameter {
    pub fn from_inches(d: Ratio) -> (r: Self)
        requires
            d.wf(),
        ensures
            r.val() == d@,
            r.wf(),
    {
        FanDiameter(d)
    }

    pub fn inches(&self) -> (r: Ratio)
        requires
            self.wf(),
        ensures
            r@ == self.val(),
            r.wf(),
    {
        self.0
    }
}

/// Air density, in pounds per cubic foot.
#[derive(Clone, Copy, Debug, PartialEq, Eq, Structural)]
pub struct AirDensity(Ratio);

impl Quantity for AirDensity {
    closed spec fn val(self) -> (int, int) {
        self.0@
    }

    fn value(&self) -> (r: Ratio) {
        self.0
    }

    fn from_ratio(v: Ratio) -> (r: Self) {
        AirDensity(v)
    }
}

impl AirDensity {
    pub fn from_pounds_per_cubic_foot(d: Ratio) -> (r: Self)
        requires
            d.wf(),
        ensures
            r.val() == d@,
            r.wf(),
    {
        AirDensity(d)
    }

    pub fn pounds_per_cubic_foot(&self) -> (r: Ratio)
        requires
            self.wf(),
        ensures
            r@ == self.val(),
            r.wf(),
    {
        self.0
    }
}

// Geometric similarity at constant speed: airflow scales with the cube
// of the diameter, pressure with the square, power with the fifth power.
impl ScalesWith<FanDiameter> for InletAirflow {
    open spec fn exp() -> nat {
        3
    }

    open spec fn from_matches(self, from: FanDiameter) -> bool {
        true
    }

    fn scale(self, from: &FanDiameter, to: &FanDiameter) -> (r: Result<Self, ScaleError>) {
        if from.value().eq_rat(&to.value()) {
            Ok(self)
        } else {
            match scale_ratio(&self.value(), &from.value(), &to.value(), 3) {
                Ok(v) => Ok(Self::from_ratio(v)),
                Err(e) => Err(e),
            }
        }
    }
}

impl ScalesWith<FanDiameter> for OutletAirflow {
    open spec fn exp() -> nat {
        3
    }

    open spec fn from_matches(self, from: FanDiameter) -> bool {
        true
    }

    fn scale(self, from: &FanDiameter, to: &FanDiameter) -> (r: Result<Self, ScaleError>) {
        if from.value().eq_rat(&to.value()) {
            Ok(self)
        } else {
            match scale_ratio(&self.value(), &from.value(), &to.value(), 3) {
                Ok(v) => Ok(Self::from_ratio(v)),
                Err(e) => Err(e),
            }
        }
    }
}

impl ScalesWith<FanDiameter> for StaticPressure {
    open spec fn exp() -> nat {
        2
    }

    open spec fn from_matches(self, from: FanDiameter) -> bool {
        true
    }

    fn scale(self, from: &FanDiameter, to: &FanDiameter) -> (r: Result<Self, ScaleError>) {
        if from.value().eq_rat(&to.value()) {
            Ok(self)
        } else {
            match scale_ratio(&self.value(), &from.value(), &to.value(), 2) {
                Ok(v) => Ok(Self::from_ratio(v)),
                Err(e) => Err(e),
            }
        }
    }
}

impl ScalesWith<FanDiameter> for BrakeHorsepower {
    open spec fn exp() -> nat {
        5
    }

    open spec fn from_matches(self, from: FanDiameter) -> bool {
        true
    }

    fn scale(self, from: &FanDiameter, to: &FanDiameter) -> (r: Result<Self, ScaleError>) {
        if from.value().eq_rat(&to.value()) {
            Ok(self)
        } else {
            match scale_ratio(&self.value(), &from.value(), &to.value(), 5) {
                Ok(v) => Ok(Self::from_ratio(v)),
                Err(e) => Err(e),
            }
        }
    }
}

// Speed change at constant diameter: airflow is linear in speed,
// pressure scales with the square, power with the cube.
impl ScalesWith<FanSpeed> for InletAirflow {
    open spec fn exp() -> nat {
        1
    }

    open spec fn from_matches(self, from: FanSpeed) -> bool {
        true
    }

    fn scale(self, from: &FanSpeed, to: &FanSpeed) -> (r: Result<Self, ScaleError>) {
        if from.value().eq_rat(&to.value()) {
            Ok(self)
        } else {
            match scale_ratio(&self.value(), &from.value(), &to.value(), 1) {
                Ok(v) => Ok(Self::from_ratio(v)),
                Err(e) => Err(e),
            }
        }
    }
}

impl ScalesWith<FanSpeed> for OutletAirflow {
    open spec fn exp() -> nat {
        1
    }

    open spec fn from_matches(self, from: FanSpeed) -> bool {
        true
    }

    fn scale(self, from: &FanSpeed, to: &FanSpeed) -> (r: Result<Self, ScaleError>) {
        if from.value().eq_rat(&to.value()) {
            Ok(self)
        } else {
            match scale_ratio(&self.value(), &from.value(), &to.value(), 1) {
                Ok(v) => Ok(Self::from_ratio(v)),
                Err(e) => Err(e),
            }
        }
    }
}

impl ScalesWith<FanSpeed> for StaticPressure {
    open spec fn exp() -> nat {
        2
    }

    open spec fn from_matches(self, from: FanSpeed) -> bool {
        true
    }

    fn scale(self, from: &FanSpeed, to: &FanSpeed) -> (r: Result<Self, ScaleError>) {
        if from.value().eq_rat(&to.value()) {
            Ok(self)
        } else {
            match scale_ratio(&self.value(), &from.value(), &to.value(), 2) {
                Ok(v) => Ok(Self::from_ratio(v)),
                Err(e) => Err(e),
            }
        }
    }
}

impl ScalesWith<FanSpeed> for BrakeHorsepower {
    open spec fn exp() -> nat {
        3
    }

    open spec fn from_matches(self, from: FanSpeed) -> bool {
        true
    }

    fn scale(self, from: &FanSpeed, to: &FanSpeed) -> (r: Result<Self, ScaleError>) {
        if from.value().eq_rat(&to.value()) {
            Ok(self)
        } else {
            match scale_ratio(&self.value(), &from.value(), &to.value(), 3) {
                Ok(v) => Ok(Self::from_ratio(v)),
                Err(e) => Err(e),
            }
        }
    }
}

// Density change for the same fan at the same speed: pressure and power
// are linear in density; airflow does not depend on it.
impl ScalesWith<AirDensity> for StaticPressure {
    open spec fn exp() -> nat {
        1
    }

    open spec fn from_matches(self, from: AirDensity) -> bool {
        true
    }

    fn scale(self, from: &AirDensity, to: &AirDensity) -> (r: Result<Self, ScaleError>) {
        if from.value().eq_rat(&to.value()) {
            Ok(self)
        } else {
            match scale_ratio(&self.value(), &from.value(), &to.value(), 1) {
                Ok(v) => Ok(Self::from_ratio(v)),
                Err(e) => Err(e),
            }
        }
    }
}

impl ScalesWith<AirDensity> for BrakeHorsepower {
    open spec fn exp() -> nat {
        1
    }

    open spec fn from_matches(self, from: AirDensity) -> bool {
        true
    }

    fn scale(self, from: &AirDensity, to: &AirDensity) -> (r: Result<Self, ScaleError>) {
        if from.value().eq_rat(&to.value()) {
            Ok(self)
        } else {
            match scale_ratio(&self.value(), &from.value(), &to.value(), 1) {
                Ok(v) => Ok(Self::from_ratio(v)),
                Err(e) => Err(e),
            }
        }
    }
}

impl ScalesWith<AirDensity> for InletAirflow {
    open spec fn exp() -> nat {
        0
    }

    open spec fn from_matches(self, from: AirDensity) -> bool {
        true
    }

    fn scale(self, from: &AirDensity, to: &AirDensity) -> (r: Result<Self, ScaleError>) {
        if from.value().eq_rat(&to.value()) {
            Ok(self)
        } else {
            match scale_ratio(&self.value(), &from.value(), &to.value(), 0) {
                Ok(v) => Ok(Self::from_ratio(v)),
                Err(e) => Err(e),
            }
        }
    }
}

impl ScalesWith<AirDensity> for OutletAirflow {
    open spec fn exp() -> nat {
        0
    }

    open spec fn from_matches(self, from: AirDensity) -> bool {
        true
    }

    fn scale(self, from: &AirDensity, to: &AirDensity) -> (r: Result<Self, ScaleError>) {
        if from.value().eq_rat(&to.value()) {
            Ok(self)
        } else {
            match scale_ratio(&self.value(), &from.value(), &to.value(), 0) {
                Ok(v) => Ok(Self::from_ratio(v)),
                Err(e) => Err(e),
            }
        }
    }
}

// A context value rescaled by its own dimension: valid only from itself,
// and the result is the new context value (the exponent is one).
impl ScalesWith<FanDiameter> for FanDiameter {
    open spec fn exp() -> nat {
        1
    }

    open spec fn from_matches(self, from: FanDiameter) -> bool {
        rat_eq(self.val(), from.val())
    }

    fn scale(self, from: &FanDiameter, to: &FanDiameter) -> (r: Result<Self, ScaleError>) {
        if !self.value().eq_rat(&from.value()) {
            Err(ScaleError::ContextMismatch)
        } else if from.value().eq_rat(&to.value()) {
            Ok(self)
        } else {
            match scale_ratio(&self.value(), &from.value(), &to.value(), 1) {
                Ok(v) => Ok(Self::from_ratio(v)),
                Err(e) => Err(e),
            }
        }
    }
}

impl ScalesWith<FanSpeed> for FanSpeed {
    open spec fn exp() -> nat {
        1
    }

    open spec fn from_matches(self, from: FanSpeed) -> bool {
        rat_eq(self.val(), from.val())
    }

    fn scale(self, from: &FanSpeed, to: &FanSpeed) -> (r: Result<Self, ScaleError>) {
        if !self.value().eq_rat(&from.value()) {
            Err(ScaleError::ContextMismatch)
        } else if from.value().eq_rat(&to.value()) {
            Ok(self)
        } else {
            match scale_ratio(&self.value(), &from.value(), &to.value(), 1) {
                Ok(v) => Ok(Self::from_ratio(v)),
                Err(e) => Err(e),
            }
        }
    }
}

impl ScalesWith<AirDensity> for AirDensity {
    open spec fn exp() -> nat {
        1
    }

    open spec fn from_matches(self, from: AirDensity) -> bool {
        rat_eq(self.val(), from.val())
    }

    fn scale(self, from: &AirDensity, to: &AirDensity) -> (r: Result<Self, ScaleError>) {
        if !self.value().eq_rat(&from.value()) {
            Err(ScaleError::ContextMismatch)
        } else if from.value().eq_rat(&to.value()) {
            Ok(self)
        } else {
            match scale_ratio(&self.value(), &from.value(), &to.value(), 1) {
                Ok(v) => Ok(Self::from_ratio(v)),
                Err(e) => Err(e),
            }
        }
    }
}

// A context value moved to a new configuration is the new value itself.
impl ScalesTo<FanDiameter> for FanDiameter {
    open spec fn scaled_to(self, to: FanDiameter) -> FanDiameter {
        to
    }

    fn scale_to(self, to: &FanDiameter) -> (r: FanDiameter) {
        *to
    }
}

impl ScalesTo<FanSpeed> for FanSpeed {
    open spec fn scaled_to(self, to: FanSpeed) -> FanSpeed {
        to
    }

    fn scale_to(self, to: &FanSpeed) -> (r: FanSpeed) {
        *to
    }
}

} // verus!
