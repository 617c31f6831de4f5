use vstd::prelude::*;

verus! {

/// A temperature, in hundredths of a degree Celsius.
///
/// No bound is enforced: any value can be constructed and carried.
#[derive(Clone, Copy, Debug, PartialEq, Eq, Structural)]
pub struct Temperature {
    pub centi_celsius: i32,
}

impl Temperature {
    pub fn from_centi_celsius(centi_celsius: i32) -> (r: Temperature)
        ensures
            r.centi_celsius == centi_celsius,
    {
        Temperature { centi_celsius }
    }

    pub fn centi_celsius(&self) -> (r: i32)
        ensures
            r == self.centi_celsius,
    {
        self.centi_celsius
    }
}

/// Volumetric water content, in hundredths of a percent.
///
/// Construction does not check the range; `is_valid` reports it.
#[derive(Clone, Copy, Debug, PartialEq, Eq, Structural)]
pub struct WaterContent {
    pub centi_percent: i32,
}

/// The name under which the simulated sensor speaks of water content.
pub type VolumetricWaterContent = WaterContent;

/// Highest valid water content: 100.00 %.
pub const MAX_WATER_CONTENT_CENTI_PERCENT: i32 = 10000;

impl WaterContent {
    /// A water content is valid when it lies between 0 % and 100 %.
    pub open spec fn valid(self) -> bool {
        0 <= self.centi_percent <= MAX_WATER_CONTENT_CENTI_PERCENT
    }

    pub fn from_centi_percent(centi_percent: i32) -> (r: WaterContent)
        ensures
            r.centi_percent == centi_percent,
    {
        WaterContent { centi_percent }
    }

    pub fn centi_percent(&self) -> (r: i32)
        ensures
            r == self.centi_percent,
    {
        self.centi_percent
    }

    pub fn is_valid(&self) -> (r: bool)
        ensures
            r == self.valid(),
    {
        0 <= self.centi_percent && self.centi_percent <= MAX_WATER_CONTENT_CENTI_PERCENT
    }
}

/// Relative permittivity, a dimensionless ratio held in hundredths.
///
/// Construction does not check the range; `is_valid` reports it.
#[derive(Clone, Copy, Debug, PartialEq, Eq, Structural)]
pub struct RelativePermittivity {
    pub centi_ratio: i32,
}

/// Lowest valid relative permittivity, that of vacuum: 1.00.
pub const MIN_PERMITTIVITY_CENTI_RATIO: i32 = 100;

impl RelativePermittivity {
    /// A relative permittivity is valid when it is at least that of vacuum.
    pub open spec fn valid(self) -> bool {
        self.centi_ratio >= MIN_PERMITTIVITY_CENTI_RATIO
    }

    pub fn from_centi_ratio(centi_ratio: i32) -> (r: RelativePermittivity)
        ensures
            r.centi_ratio == centi_ratio,
    {
        RelativePermittivity { centi_ratio }
    }

    /// The permittivity of vacuum, the lowest valid value.
    pub fn min() -> (r: RelativePermittivity)
        ensures
            r.centi_ratio == MIN_PERMITTIVITY_CENTI_RATIO,
            r.valid(),
    {
        RelativePermittivity { centi_ratio: MIN_PERMITTIVITY_CENTI_RATIO }
    }

    pub fn centi_ratio(&self) -> (r: i32)
        ensures
            r == self.centi_ratio,
    {
        self.centi_ratio
    }

    pub fn is_valid(&self) -> (r: bool)
        ensures
            r == self.valid(),
    {
        self.centi_ratio >= MIN_PERMITTIVITY_CENTI_RATIO
    }
}

} // verus!
