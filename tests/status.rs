use kraken::{CoolerError, Status};

#[test]
fn status_decodes_report() {
    let mut report = [0u8; 64];
    report[..7].copy_from_slice(&[0xff, 30, 5, 0x00, 0x0a, 0x07, 0xd0]);
    let s = Status::from_report(&report).unwrap();
    assert_eq!(s.liquid_temp_whole, 30);
    assert_eq!(s.liquid_temp_tenths, 5);
    assert_eq!(s.liquid_temp_in_tenths(), 305);
    assert!((f32::from(s.liquid_temp_whole) + f32::from(s.liquid_temp_tenths) / 10.0 - 30.5).abs() < 1e-6);
    assert_eq!(s.fan_speed, 10);
    assert_eq!(s.pump_speed, 2000);
}

#[test]
fn status_takes_any_byte_values() {
    let s = Status::from_report(&[0, 255, 255, 0xff, 0xff, 0x12, 0x34]).unwrap();
    assert_eq!(s.liquid_temp_in_tenths(), 2805);
    assert_eq!(s.fan_speed, 0xffff);
    assert_eq!(s.pump_speed, 0x1234);
}

#[test]
fn status_refuses_short_report() {
    assert_eq!(Status::from_report(&[0, 30, 5, 0, 10, 7]), Err(CoolerError::MalformedReport));
    assert_eq!(Status::from_report(&[]), Err(CoolerError::MalformedReport));
}
