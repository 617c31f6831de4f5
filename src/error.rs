use vstd::prelude::*;
use crate::units::{RelativePermittivity, WaterContent};

verus! {

/// Why a reading or a reset could not be completed.
#[derive(Clone, Copy, Debug, PartialEq, Eq, Structural)]
pub enum SensorError {
    /// Fewer than two bytes were given to a decoder.
    InsufficientData,
    /// The decoded water content lies outside 0 % to 100 %.
    WaterContentOutOfRange(WaterContent),
    /// The decoded relative permittivity lies below 1.00.
    PermittivityOutOfRange(RelativePermittivity),
    /// The device answered with a response of the wrong kind or shape,
    /// or did not echo a write exactly.
    InvalidResponse,
}

} // verus!
