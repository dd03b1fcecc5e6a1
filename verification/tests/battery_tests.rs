use libg933::battery::{
    decode_charging_status, estimate, ChargingStatus, Curve, CurvePoint, CurveSet,
};
use libg933::devices::DeviceMatch;
use libg933::error::Error;
use libg933::FromBytesWithDevice;

fn curve(points: &[(i32, u32)]) -> Curve {
    let points: Vec<CurvePoint> = points
        .iter()
        .map(|&(voltage, milli_percent)| CurvePoint { voltage, milli_percent })
        .collect();
    Curve::from_points(points).unwrap()
}

fn discharge_set(model: u16, points: &[(i32, u32)]) -> CurveSet {
    let mut curves = CurveSet::new();
    curves.insert(model, ChargingStatus::Discharging, curve(points));
    curves
}

#[test]
fn status_byte_decoding() {
    assert_eq!(decode_charging_status(1), Ok(ChargingStatus::Discharging));
    assert_eq!(decode_charging_status(3), Ok(ChargingStatus::Charging(false)));
    assert_eq!(decode_charging_status(7), Ok(ChargingStatus::Full));
    for byte in [0u8, 2, 4, 5, 6, 8, 0xff] {
        assert_eq!(decode_charging_status(byte), Err(Error::UnknownChargingState));
    }
}

#[test]
fn midpoint_interpolates_to_exactly_fifty_percent() {
    // Curve {3700 mV: 0.0, 4200 mV: 100.0}, reading at the linear midpoint.
    let curves = discharge_set(0x0a5b, &[(3700, 0), (4200, 100_000)]);
    let status = estimate(0x0a5b, 3950, 1, &curves).unwrap();
    assert_eq!(status.charging_status, ChargingStatus::Discharging);
    assert_eq!(status.voltage, 3950);
    assert_eq!(status.charge.num, 50 * status.charge.den);
    let charge = status.charge.num as f32 / status.charge.den as f32;
    assert_eq!(charge, 50.0);
}

#[test]
fn quarter_point_interpolates_exactly() {
    let curves = discharge_set(0x0a5b, &[(3700, 0), (4200, 100_000)]);
    let status = estimate(0x0a5b, 3825, 1, &curves).unwrap();
    assert_eq!(status.charge.num, 25 * status.charge.den);
}

#[test]
fn far_out_of_range_readings_are_clamped() {
    // Extrapolation below the curve would be negative, above it would
    // exceed 100; both are clamped.
    let curves = discharge_set(0x0a5b, &[(3700, 0), (4200, 100_000)]);
    let low = estimate(0x0a5b, 100, 1, &curves).unwrap();
    assert_eq!(low.charge.num, 0);
    assert_eq!(low.charge.den, 1);
    let high = estimate(0x0a5b, 65000, 1, &curves).unwrap();
    assert_eq!(high.charge.num, 100);
    assert_eq!(high.charge.den, 1);
    for status in [low, high] {
        assert!(status.charge.den > 0);
        assert!(status.charge.num >= 0);
        assert!(status.charge.num <= 100 * status.charge.den);
    }
}

#[test]
fn full_state_is_always_one_hundred_percent() {
    // The Full byte bypasses the curves entirely, whatever they hold.
    let empty = CurveSet::new();
    let status = estimate(0x0a5b, 1234, 7, &empty).unwrap();
    assert_eq!(status.charging_status, ChargingStatus::Full);
    assert_eq!(status.charge.num, 100);
    assert_eq!(status.charge.den, 1);

    let with_odd_curve = discharge_set(0x0a5b, &[(0, 0), (1, 0)]);
    let status = estimate(0x0a5b, 0, 7, &with_odd_curve).unwrap();
    assert_eq!(status.charge.num as f32 / status.charge.den as f32, 100.0);
}

#[test]
fn missing_curve_fails_with_no_calibration_data() {
    // No curve for the (model, state) pair: a typed error, never a panic.
    let curves = discharge_set(0x0a5b, &[(3700, 0), (4200, 100_000)]);
    assert_eq!(estimate(0x9999, 3950, 1, &curves), Err(Error::NoCalibrationData));
    // The model is known but the charging state has no curve.
    assert_eq!(estimate(0x0a5b, 3950, 3, &curves), Err(Error::NoCalibrationData));
}

#[test]
fn unknown_status_byte_fails() {
    let curves = discharge_set(0x0a5b, &[(3700, 0), (4200, 100_000)]);
    assert_eq!(estimate(0x0a5b, 3950, 2, &curves), Err(Error::UnknownChargingState));
}

#[test]
fn single_point_curve_is_degenerate() {
    let curves = discharge_set(0x0a5b, &[(3700, 50_000)]);
    assert_eq!(estimate(0x0a5b, 3950, 1, &curves), Err(Error::DegenerateCurve));
}

#[test]
fn nearest_two_points_need_not_bracket_the_reading() {
    // 4100 and 4200 are both nearer to 4150 than 3700 is, so the line
    // through them is used even though the reading lies between them;
    // at 4300 the same two points extrapolate beyond the curve's end.
    let curves = discharge_set(0x0a5b, &[(3700, 0), (4100, 80_000), (4200, 100_000)]);
    let mid = estimate(0x0a5b, 4150, 1, &curves).unwrap();
    assert_eq!(mid.charge.num as f32 / mid.charge.den as f32, 90.0);
    let beyond = estimate(0x0a5b, 4250, 1, &curves).unwrap();
    assert_eq!(beyond.charge.num as f32 / beyond.charge.den as f32, 100.0);
}

#[test]
fn ties_prefer_the_lower_voltage_point() {
    // 3950 is equally far from both points; the scan keeps the earlier
    // point as nearest and the other as next-closest, and the line
    // through them still gives the exact midpoint.
    let curves = discharge_set(0x0a5b, &[(3700, 20_000), (4200, 60_000)]);
    let status = estimate(0x0a5b, 3950, 1, &curves).unwrap();
    assert_eq!(status.charge.num as f32 / status.charge.den as f32, 40.0);
}

#[test]
fn curve_building_rejects_bad_points() {
    assert!(Curve::from_points(vec![
        CurvePoint { voltage: 3700, milli_percent: 0 },
        CurvePoint { voltage: 3700, milli_percent: 1000 },
    ])
    .is_none());
    assert!(Curve::from_points(vec![
        CurvePoint { voltage: 4200, milli_percent: 0 },
        CurvePoint { voltage: 3700, milli_percent: 1000 },
    ])
    .is_none());
    assert!(Curve::from_points(vec![CurvePoint { voltage: 3700, milli_percent: 100_001 }])
        .is_none());
}

#[test]
fn battery_record_decodes_from_payload_bytes() {
    let curves = discharge_set(0x0a5b, &[(3700, 0), (4200, 100_000)]);
    let device = DeviceMatch { pid: 0x0a5b, name: "G933 Headset" };
    // Voltage 0x0f6e = 3950 mV, status byte 1: discharging.
    let status = libg933::battery::BatteryStatus::from_bytes(&device, &curves, &[0x0f, 0x6e, 0x01])
        .unwrap();
    assert_eq!(status.voltage, 3950);
    assert_eq!(status.charging_status, ChargingStatus::Discharging);
    assert_eq!(status.charge.num, 50 * status.charge.den);
    // A model without curves decodes to nothing.
    let unknown = DeviceMatch { pid: 0x9999, name: "G933 Headset" };
    assert!(libg933::battery::BatteryStatus::from_bytes(&unknown, &curves, &[0x0f, 0x6e, 0x01])
        .is_none());
}
