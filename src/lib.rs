//! Driver logic for a soil-moisture sensor that reports temperature,
//! volumetric water content, relative permittivity and raw counts through
//! holding registers of a field protocol.
//!
//! Physical quantities are held in fixed point with two decimal places,
//! which is the resolution of the device's registers.

pub mod codec;
pub mod error;
pub mod mock;
pub mod protocol;
pub mod units;

pub use codec::{decode_permittivity_bytes, decode_temperature_bytes, decode_water_content_bytes};
pub use error::SensorError;
pub use mock::Proxy;
pub use units::{RelativePermittivity, Temperature, VolumetricWaterContent, WaterContent};
