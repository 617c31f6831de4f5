use vstd::prelude::*;
use crate::codec::{
    decode_counts_register, decode_permittivity_register, decode_temperature_register,
    decode_water_content_register, permittivity_result, temperature_of, water_content_result,
};
use crate::error::SensorError;
use crate::units::{RelativePermittivity, Temperature, WaterContent};

verus! {

/// Holding register that holds the temperature.
pub const TEMPERATURE_ADDRESS: u16 = 0x0000;

/// Holding register that holds the water content.
pub const WATER_CONTENT_ADDRESS: u16 = 0x0001;

/// Holding register that holds the relative permittivity.
pub const PERMITTIVITY_ADDRESS: u16 = 0x0002;

/// Holding register that holds the raw counts.
pub const COUNTS_ADDRESS: u16 = 0x0003;

/// Holding register that a new slave address is written to.
pub const SLAVE_ADDRESS_REGISTER: u16 = 0x0004;

/// The quantities that the device reports, one holding register each.
#[derive(Clone, Copy, Debug, PartialEq, Eq, Structural)]
pub enum Quantity {
    Temperature,
    WaterContent,
    Permittivity,
    Counts,
}

/// A request to the device, in the terms of the field protocol.
#[derive(Clone, Copy, Debug, PartialEq, Eq, Structural)]
pub enum Request {
    /// Read `count` holding registers starting at `address`.
    ReadHoldingRegisters(u16, u16),
    /// Write `value` to the holding register at `address`.
    WriteSingleRegister(u16, u16),
}

/// A response from the device, as far as this driver tells them apart.
#[derive(Clone, Debug)]
pub enum Response {
    /// The words of the holding registers that were read.
    ReadHoldingRegisters(Vec<u16>),
    /// The address and value that a single-register write echoes.
    WriteSingleRegister(u16, u16),
    /// Any other kind of response.
    Other,
}

/// The holding register of a quantity.
pub open spec fn address_of(q: Quantity) -> u16 {
    match q {
        Quantity::Temperature => TEMPERATURE_ADDRESS,
        Quantity::WaterContent => WATER_CONTENT_ADDRESS,
        Quantity::Permittivity => PERMITTIVITY_ADDRESS,
        Quantity::Counts => COUNTS_ADDRESS,
    }
}

/// The one word that a well-formed response to a single-register read
/// carries, or an invalid-response error.
pub open spec fn single_word_of(rsp: Response) -> Result<u16, SensorError> {
    match rsp {
        Response::ReadHoldingRegisters(words) => if words@.len() == 1 {
            Ok(words@[0])
        } else {
            Err(SensorError::InvalidResponse)
        },
        _ => Err(SensorError::InvalidResponse),
    }
}

/// The request that writes `slave` as the device's new address.
pub open spec fn reset_request_of(slave: u8) -> Request {
    Request::WriteSingleRegister(SLAVE_ADDRESS_REGISTER, slave as u16)
}

/// The response of a device that carried out a single-register write.
pub open spec fn echo_of(req: Request) -> Response {
    match req {
        Request::WriteSingleRegister(address, value) => Response::WriteSingleRegister(address, value),
        Request::ReadHoldingRegisters(_, _) => Response::Other,
    }
}

/// What a reset to `slave` yields once the device has answered `rsp`: the
/// address itself when the write was echoed exactly, else an
/// invalid-response error.
pub open spec fn reset_result(slave: u8, rsp: Response) -> Result<u8, SensorError> {
    if rsp == echo_of(reset_request_of(slave)) {
        Ok(slave)
    } else {
        Err(SensorError::InvalidResponse)
    }
}

/// The request that reads the register of `q`: one word at its address.
pub fn read_request(q: Quantity) -> (r: Request)
    ensures
        r == Request::ReadHoldingRegisters(address_of(q), 1),
{
    let address = match q {
        Quantity::Temperature => TEMPERATURE_ADDRESS,
        Quantity::WaterContent => WATER_CONTENT_ADDRESS,
        Quantity::Permittivity => PERMITTIVITY_ADDRESS,
        Quantity::Counts => COUNTS_ADDRESS,
    };
    Request::ReadHoldingRegisters(address, 1)
}

/// Takes the one word out of the response to a single-register read;
/// any other shape of response is invalid.
pub fn single_word(rsp: &Response) -> (r: Result<u16, SensorError>)
    ensures
        r == single_word_of(*rsp),
{
    match rsp {
        Response::ReadHoldingRegisters(words) => {
            if words.len() == 1 {
                Ok(words[0])
            } else {
                Err(SensorError::InvalidResponse)
            }
        },
        _ => Err(SensorError::InvalidResponse),
    }
}

/// The temperature carried by the response to its read request.
pub fn temperature_from_response(rsp: &Response) -> (r: Result<Temperature, SensorError>)
    ensures
        r == (match single_word_of(*rsp) {
            Ok(raw) => Ok(temperature_of(raw)),
            Err(e) => Err::<Temperature, SensorError>(e),
        }),
{
    match single_word(rsp) {
        Ok(raw) => Ok(decode_temperature_register(raw)),
        Err(e) => Err(e),
    }
}

/// The water content carried by the response to its read request, checked
/// to lie between 0 % and 100 %.
pub fn water_content_from_response(rsp: &Response) -> (r: Result<WaterContent, SensorError>)
    ensures
        r == (match single_word_of(*rsp) {
            Ok(raw) => water_content_result(raw),
            Err(e) => Err::<WaterContent, SensorError>(e),
        }),
        r matches Ok(w) ==> w.valid(),
{
    match single_word(rsp) {
        Ok(raw) => decode_water_content_register(raw),
        Err(e) => Err(e),
    }
}

/// The relative permittivity carried by the response to its read request,
/// checked to be at least 1.00.
pub fn permittivity_from_response(rsp: &Response) -> (r: Result<RelativePermittivity, SensorError>)
    ensures
        r == (match single_word_of(*rsp) {
            Ok(raw) => permittivity_result(raw),
            Err(e) => Err::<RelativePermittivity, SensorError>(e),
        }),
        r matches Ok(p) ==> p.valid(),
{
    match single_word(rsp) {
        Ok(raw) => decode_permittivity_register(raw),
        Err(e) => Err(e),
    }
}

/// The counts carried by the response to their read request.
pub fn counts_from_response(rsp: &Response) -> (r: Result<usize, SensorError>)
    ensures
        r == (match single_word_of(*rsp) {
            Ok(raw) => Ok(raw as usize),
            Err(e) => Err::<usize, SensorError>(e),
        }),
{
    match single_word(rsp) {
        Ok(raw) => Ok(decode_counts_register(raw)),
        Err(e) => Err(e),
    }
}

/// The request that makes the device take `slave` as its new address.
pub fn reset_request(slave: u8) -> (r: Request)
    ensures
        r == reset_request_of(slave),
        r == Request::WriteSingleRegister(0x0004, slave as u16),
{
    Request::WriteSingleRegister(SLAVE_ADDRESS_REGISTER, slave as u16)
}

/// Checks the device's answer to a reset: the write must be echoed with
/// the same address and value, and the new address is then returned.
pub fn confirm_reset(slave: u8, rsp: &Response) -> (r: Result<u8, SensorError>)
    ensures
        r == reset_result(slave, *rsp),
{
    match rsp {
        Response::WriteSingleRegister(address, value) => {
            if *address == SLAVE_ADDRESS_REGISTER && *value == slave as u16 {
                Ok(slave)
            } else {
                Err(SensorError::InvalidResponse)
            }
        },
        _ => Err(SensorError::InvalidResponse),
    }
}

/// A device that echoes the reset write confirms the address that was
/// asked for; an echo whose address or value differs from the request is
/// reported as an invalid response, never as success.
pub proof fn lemma_reset_round_trip(slave: u8, address: u16, value: u16)
    ensures
        reset_result(slave, echo_of(reset_request_of(slave))) == Ok::<u8, SensorError>(slave),
        (address != SLAVE_ADDRESS_REGISTER || value != slave as u16) ==> reset_result(
            slave,
            Response::WriteSingleRegister(address, value),
        ) == Err::<u8, SensorError>(SensorError::InvalidResponse),
{
}

} // verus!
