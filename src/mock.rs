use vstd::prelude::*;
use crate::units::{RelativePermittivity, Temperature, VolumetricWaterContent};

verus! {

/// Temperature that a fresh simulated sensor reports: 20.00 °C.
pub const DEFAULT_TEMPERATURE_CENTI_CELSIUS: i32 = 2000;

/// Water content that a fresh simulated sensor reports: 30.00 %.
pub const DEFAULT_WATER_CONTENT_CENTI_PERCENT: i32 = 3000;

/// A sensor simulated in memory: each read returns the value last stored
/// for its quantity, and never fails. Stored values are not checked, so
/// invalid ones can be set on purpose.
pub struct Proxy {
    temperature: Temperature,
    water_content: VolumetricWaterContent,
    permittivity: RelativePermittivity,
    counts: usize,
}

impl Proxy {
    /// The stored temperature.
    pub closed spec fn temperature_spec(&self) -> Temperature {
        self.temperature
    }

    /// The stored water content.
    pub closed spec fn water_content_spec(&self) -> VolumetricWaterContent {
        self.water_content
    }

    /// The stored relative permittivity.
    pub closed spec fn permittivity_spec(&self) -> RelativePermittivity {
        self.permittivity
    }

    /// The stored counts.
    pub closed spec fn counts_spec(&self) -> usize {
        self.counts
    }

    pub fn default_temperature() -> (r: Temperature)
        ensures
            r.centi_celsius == 2000,
    {
        Temperature::from_centi_celsius(DEFAULT_TEMPERATURE_CENTI_CELSIUS)
    }

    /// Stores a temperature; the other quantities keep their values.
    pub fn set_temperature(&mut self, temperature: Temperature)
        ensures
            final(self).temperature_spec() == temperature,
            final(self).water_content_spec() == old(self).water_content_spec(),
            final(self).permittivity_spec() == old(self).permittivity_spec(),
            final(self).counts_spec() == old(self).counts_spec(),
    {
        self.temperature = temperature;
    }

    pub fn default_water_content() -> (r: VolumetricWaterContent)
        ensures
            r.centi_percent == 3000,
    {
        VolumetricWaterContent::from_centi_percent(DEFAULT_WATER_CONTENT_CENTI_PERCENT)
    }

    /// Stores a water content; the other quantities keep their values.
    pub fn set_water_content(&mut self, water_content: VolumetricWaterContent)
        ensures
            final(self).water_content_spec() == water_content,
            final(self).temperature_spec() == old(self).temperature_spec(),
            final(self).permittivity_spec() == old(self).permittivity_spec(),
            final(self).counts_spec() == old(self).counts_spec(),
    {
        self.water_content = water_content;
    }

    pub fn default_permittivity() -> (r: RelativePermittivity)
        ensures
            r.centi_ratio == 100,
    {
        RelativePermittivity::min()
    }

    /// Stores a relative permittivity; the other quantities keep their values.
    pub fn set_permittivity(&mut self, permittivity: RelativePermittivity)
        ensures
            final(self).permittivity_spec() == permittivity,
            final(self).temperature_spec() == old(self).temperature_spec(),
            final(self).water_content_spec() == old(self).water_content_spec(),
            final(self).counts_spec() == old(self).counts_spec(),
    {
        self.permittivity = permittivity;
    }

    pub fn default_counts() -> (r: usize)
        ensures
            r == 0,
    {
        0
    }

    /// Stores the counts; the other quantities keep their values.
    pub fn set_counts(&mut self, counts: usize)
        ensures
            final(self).counts_spec() == counts,
            final(self).temperature_spec() == old(self).temperature_spec(),
            final(self).water_content_spec() == old(self).water_content_spec(),
            final(self).permittivity_spec() == old(self).permittivity_spec(),
    {
        self.counts = counts;
    }

    pub fn read_temperature(&self) -> (r: Temperature)
        ensures
            r == self.temperature_spec(),
    {
        self.temperature
    }

    pub fn read_water_content(&self) -> (r: VolumetricWaterContent)
        ensures
            r == self.water_content_spec(),
    {
        self.water_content
    }

    pub fn read_permittivity(&self) -> (r: RelativePermittivity)
        ensures
            r == self.permittivity_spec(),
    {
        self.permittivity
    }

    pub fn read_counts(&self) -> (r: usize)
        ensures
            r == self.counts_spec(),
    {
        self.counts
    }
}

impl Default for Proxy {
    /// A simulated sensor that reports 20.00 °C, 30.00 %, a permittivity of
    /// 1.00 and no counts.
    fn default() -> (r: Proxy)
        ensures
            r.temperature_spec().centi_celsius == 2000,
            r.water_content_spec().centi_percent == 3000,
            r.permittivity_spec().centi_ratio == 100,
            r.counts_spec() == 0,
    {
        Proxy {
            temperature: Proxy::default_temperature(),
            water_content: Proxy::default_water_content(),
            permittivity: Proxy::default_permittivity(),
            counts: Proxy::default_counts(),
        }
    }
}

} // verus!
