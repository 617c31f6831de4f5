use smt100::protocol::{
    confirm_reset, counts_from_response, permittivity_from_response, read_request,
    reset_request, single_word, temperature_from_response, water_content_from_response,
    Quantity, Request, Response,
};
use smt100::{Proxy, RelativePermittivity, SensorError, Temperature, WaterContent};

#[test]
fn proxy_defaults() {
    let p = Proxy::default();
    assert_eq!(Temperature::from_centi_celsius(2000), p.read_temperature());
    assert_eq!(WaterContent::from_centi_percent(3000), p.read_water_content());
    assert_eq!(RelativePermittivity::from_centi_ratio(100), p.read_permittivity());
    assert_eq!(0, p.read_counts());
    assert_eq!(Proxy::default_temperature(), p.read_temperature());
    assert_eq!(Proxy::default_water_content(), p.read_water_content());
    assert_eq!(Proxy::default_permittivity(), p.read_permittivity());
    assert_eq!(Proxy::default_counts(), p.read_counts());
}

#[test]
fn proxy_setters_touch_one_field() {
    let mut p = Proxy::default();
    p.set_temperature(Temperature::from_centi_celsius(-1234));
    assert_eq!(Temperature::from_centi_celsius(-1234), p.read_temperature());
    assert_eq!(WaterContent::from_centi_percent(3000), p.read_water_content());

    p.set_water_content(WaterContent::from_centi_percent(20000));
    assert_eq!(WaterContent::from_centi_percent(20000), p.read_water_content());
    assert_eq!(Temperature::from_centi_celsius(-1234), p.read_temperature());

    p.set_permittivity(RelativePermittivity::from_centi_ratio(50));
    assert_eq!(RelativePermittivity::from_centi_ratio(50), p.read_permittivity());
    assert_eq!(0, p.read_counts());

    p.set_counts(42);
    assert_eq!(42, p.read_counts());
    assert_eq!(RelativePermittivity::from_centi_ratio(50), p.read_permittivity());
    assert_eq!(WaterContent::from_centi_percent(20000), p.read_water_content());
}

#[test]
fn read_requests_follow_register_map() {
    assert_eq!(Request::ReadHoldingRegisters(0x0000, 1), read_request(Quantity::Temperature));
    assert_eq!(Request::ReadHoldingRegisters(0x0001, 1), read_request(Quantity::WaterContent));
    assert_eq!(Request::ReadHoldingRegisters(0x0002, 1), read_request(Quantity::Permittivity));
    assert_eq!(Request::ReadHoldingRegisters(0x0003, 1), read_request(Quantity::Counts));
}

#[test]
fn responses_decode_single_word() {
    let rsp = Response::ReadHoldingRegisters(vec![0x1770]);
    assert_eq!(Ok(0x1770), single_word(&rsp));
    assert_eq!(Ok(Temperature::from_centi_celsius(-4000)), temperature_from_response(&rsp));
    assert_eq!(Ok(6000), counts_from_response(&rsp));
    assert_eq!(Ok(WaterContent::from_centi_percent(6000)), water_content_from_response(&rsp));
    let rsp = Response::ReadHoldingRegisters(vec![0x2711]);
    assert_eq!(
        Err(SensorError::WaterContentOutOfRange(WaterContent::from_centi_percent(10001))),
        water_content_from_response(&rsp)
    );
    let rsp = Response::ReadHoldingRegisters(vec![0x05F0]);
    assert_eq!(Ok(RelativePermittivity::from_centi_ratio(1520)), permittivity_from_response(&rsp));
    assert_eq!(Ok(WaterContent::from_centi_percent(1520)), water_content_from_response(&rsp));
    let rsp = Response::ReadHoldingRegisters(vec![0x0063]);
    assert_eq!(
        Err(SensorError::PermittivityOutOfRange(RelativePermittivity::from_centi_ratio(99))),
        permittivity_from_response(&rsp)
    );
}

#[test]
fn responses_of_wrong_shape_are_invalid() {
    let none = Response::ReadHoldingRegisters(vec![]);
    let two = Response::ReadHoldingRegisters(vec![1, 2]);
    let write = Response::WriteSingleRegister(0, 1);
    for rsp in [none, two, write, Response::Other] {
        assert_eq!(Err(SensorError::InvalidResponse), temperature_from_response(&rsp));
        assert_eq!(Err(SensorError::InvalidResponse), water_content_from_response(&rsp));
        assert_eq!(Err(SensorError::InvalidResponse), permittivity_from_response(&rsp));
        assert_eq!(Err(SensorError::InvalidResponse), counts_from_response(&rsp));
    }
}

#[test]
fn reset_round_trip() {
    let req = reset_request(17);
    assert_eq!(Request::WriteSingleRegister(0x0004, 17), req);
    let echo = match req {
        Request::WriteSingleRegister(a, v) => Response::WriteSingleRegister(a, v),
        Request::ReadHoldingRegisters(_, _) => Response::Other,
    };
    assert_eq!(Ok(17), confirm_reset(17, &echo));
}

#[test]
fn reset_mismatch_is_invalid() {
    let bad_address = Response::WriteSingleRegister(0x0005, 17);
    let bad_value = Response::WriteSingleRegister(0x0004, 18);
    let wrong_kind = Response::ReadHoldingRegisters(vec![17]);
    assert_eq!(Err(SensorError::InvalidResponse), confirm_reset(17, &bad_address));
    assert_eq!(Err(SensorError::InvalidResponse), confirm_reset(17, &bad_value));
    assert_eq!(Err(SensorError::InvalidResponse), confirm_reset(17, &wrong_kind));
    assert_eq!(Err(SensorError::InvalidResponse), confirm_reset(17, &Response::Other));
}
