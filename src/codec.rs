use vstd::prelude::*;
use byteorder::ByteOrder;
use crate::error::SensorError;
use crate::units::{
    MAX_WATER_CONTENT_CENTI_PERCENT, MIN_PERMITTIVITY_CENTI_RATIO, RelativePermittivity,
    Temperature, WaterContent,
};

verus! {

/// The register value that encodes 0.00 °C.
pub const TEMPERATURE_OFFSET: i32 = 10000;

/// The 16-bit word whose big-endian encoding is `hi`, `lo`.
pub open spec fn be_word(hi: u8, lo: u8) -> int {
    hi as int * 256 + lo as int
}

/// The word held by the first two bytes of `b`, most significant first.
pub open spec fn word_of(b: Seq<u8>) -> int
    recommends
        b.len() >= 2,
{
    be_word(b[0], b[1])
}

/// Relies on byteorder's `BigEndian::read_u16`: it reads the first two bytes
/// as one big-endian word, and panics on fewer than two.
#[verifier::external_body]
fn read_be_u16(b: &[u8]) -> (r: u16)
    requires
        b@.len() >= 2,
    ensures
        r as int == word_of(b@),
{
    byteorder::BigEndian::read_u16(b)
}

/// Temperature encoded by a register word: the offset is taken off.
pub open spec fn temperature_of(raw: u16) -> Temperature {
    Temperature { centi_celsius: (raw - TEMPERATURE_OFFSET) as i32 }
}

/// Water content encoded by a register word, before any range check.
pub open spec fn water_content_of(raw: u16) -> WaterContent {
    WaterContent { centi_percent: raw as i32 }
}

/// Relative permittivity encoded by a register word, before any range check.
pub open spec fn permittivity_of(raw: u16) -> RelativePermittivity {
    RelativePermittivity { centi_ratio: raw as i32 }
}

/// What decoding a water content register yields: the value when it is
/// valid, else an out-of-range error that carries it.
pub open spec fn water_content_result(raw: u16) -> Result<WaterContent, SensorError> {
    if water_content_of(raw).valid() {
        Ok(water_content_of(raw))
    } else {
        Err(SensorError::WaterContentOutOfRange(water_content_of(raw)))
    }
}

/// What decoding a permittivity register yields: the value when it is
/// valid, else an out-of-range error that carries it.
pub open spec fn permittivity_result(raw: u16) -> Result<RelativePermittivity, SensorError> {
    if permittivity_of(raw).valid() {
        Ok(permittivity_of(raw))
    } else {
        Err(SensorError::PermittivityOutOfRange(permittivity_of(raw)))
    }
}

/// Decodes a temperature register word.
pub fn decode_temperature_register(raw: u16) -> (r: Temperature)
    ensures
        r == temperature_of(raw),
        r.centi_celsius == raw as int - 10000,
{
    Temperature::from_centi_celsius(raw as i32 - TEMPERATURE_OFFSET)
}

/// Decodes a water content register word and checks its range.
pub fn decode_water_content_register(raw: u16) -> (r: Result<WaterContent, SensorError>)
    ensures
        r == water_content_result(raw),
        r is Ok <==> raw <= 10000,
        r matches Ok(w) ==> w.valid() && w.centi_percent == raw,
{
    let w = WaterContent::from_centi_percent(raw as i32);
    if w.is_valid() {
        Ok(w)
    } else {
        Err(SensorError::WaterContentOutOfRange(w))
    }
}

/// Decodes a relative permittivity register word and checks its range.
pub fn decode_permittivity_register(raw: u16) -> (r: Result<RelativePermittivity, SensorError>)
    ensures
        r == permittivity_result(raw),
        r is Ok <==> raw >= 100,
        r matches Ok(p) ==> p.valid() && p.centi_ratio == raw,
{
    let p = RelativePermittivity::from_centi_ratio(raw as i32);
    if p.is_valid() {
        Ok(p)
    } else {
        Err(SensorError::PermittivityOutOfRange(p))
    }
}

/// Decodes a counts register word: the word itself is the count.
pub fn decode_counts_register(raw: u16) -> (r: usize)
    ensures
        r == raw,
{
    raw as usize
}

/// Reads the first register word of `bytes`, failing when fewer than two
/// bytes are given.
pub fn read_register(bytes: &[u8]) -> (r: Result<u16, SensorError>)
    ensures
        bytes@.len() < 2 <==> r == Err::<u16, SensorError>(SensorError::InsufficientData),
        r matches Ok(w) ==> w as int == word_of(bytes@),
        bytes@.len() >= 2 ==> r is Ok,
{
    if bytes.len() < 2 {
        Err(SensorError::InsufficientData)
    } else {
        Ok(read_be_u16(bytes))
    }
}

/// Decodes a temperature from its big-endian register bytes.
pub fn decode_temperature_bytes(bytes: &[u8]) -> (r: Result<Temperature, SensorError>)
    ensures
        bytes@.len() < 2 ==> r == Err::<Temperature, SensorError>(SensorError::InsufficientData),
        bytes@.len() >= 2 ==> r == Ok::<Temperature, SensorError>(
            Temperature { centi_celsius: (word_of(bytes@) - 10000) as i32 },
        ),
{
    match read_register(bytes) {
        Ok(raw) => Ok(decode_temperature_register(raw)),
        Err(e) => Err(e),
    }
}

/// Decodes a water content from its big-endian register bytes and checks
/// that it lies between 0 % and 100 %.
pub fn decode_water_content_bytes(bytes: &[u8]) -> (r: Result<WaterContent, SensorError>)
    ensures
        bytes@.len() < 2 ==> r == Err::<WaterContent, SensorError>(SensorError::InsufficientData),
        bytes@.len() >= 2 ==> (r is Ok <==> word_of(bytes@) <= 10000),
        bytes@.len() >= 2 && word_of(bytes@) <= 10000 ==> r == Ok::<WaterContent, SensorError>(
            WaterContent { centi_percent: word_of(bytes@) as i32 },
        ),
        bytes@.len() >= 2 && word_of(bytes@) > 10000 ==> r == Err::<WaterContent, SensorError>(
            SensorError::WaterContentOutOfRange(WaterContent { centi_percent: word_of(bytes@) as i32 }),
        ),
        r matches Ok(w) ==> w.valid() && 0 <= w.centi_percent <= 10000,
{
    match read_register(bytes) {
        Ok(raw) => decode_water_content_register(raw),
        Err(e) => Err(e),
    }
}

/// Decodes a relative permittivity from its big-endian register bytes and
/// checks that it is at least 1.00.
pub fn decode_permittivity_bytes(bytes: &[u8]) -> (r: Result<RelativePermittivity, SensorError>)
    ensures
        bytes@.len() < 2 ==> r == Err::<RelativePermittivity, SensorError>(SensorError::InsufficientData),
        bytes@.len() >= 2 ==> (r is Ok <==> word_of(bytes@) >= 100),
        bytes@.len() >= 2 && word_of(bytes@) >= 100 ==> r == Ok::<RelativePermittivity, SensorError>(
            RelativePermittivity { centi_ratio: word_of(bytes@) as i32 },
        ),
        bytes@.len() >= 2 && word_of(bytes@) < 100 ==> r == Err::<RelativePermittivity, SensorError>(
            SensorError::PermittivityOutOfRange(RelativePermittivity { centi_ratio: word_of(bytes@) as i32 }),
        ),
        r matches Ok(p) ==> p.valid() && p.centi_ratio >= 100,
{
    match read_register(bytes) {
        Ok(raw) => decode_permittivity_register(raw),
        Err(e) => Err(e),
    }
}

} // verus!
