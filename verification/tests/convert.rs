use yudian_ai_tool::error::AppError;
use yudian_ai_tool::modbus::convert::{
    encode_i16, encode_scaled, parameter_from_raw, parse_dpt, reencode_temperature,
    temperature_in_range, ScaleConfig, SENTINEL_NO_DATA,
};

fn is_out_of_range(result: Result<u16, AppError>) -> bool {
    matches!(result, Err(AppError::OutOfRange { .. }))
}

#[test]
fn parses_dpt_with_default_fallback() {
    assert_eq!(
        parse_dpt(Some(0)),
        ScaleConfig {
            decimal_point: 0,
            scale_factor: 1
        }
    );
    assert_eq!(
        parse_dpt(Some(1)),
        ScaleConfig {
            decimal_point: 1,
            scale_factor: 1
        }
    );
    assert_eq!(
        parse_dpt(Some(2)),
        ScaleConfig {
            decimal_point: 2,
            scale_factor: 1
        }
    );
    assert_eq!(
        parse_dpt(Some(129)),
        ScaleConfig {
            decimal_point: 1,
            scale_factor: 10
        }
    );
    assert_eq!(
        parse_dpt(Some(130)),
        ScaleConfig {
            decimal_point: 2,
            scale_factor: 10
        }
    );
    assert_eq!(
        parse_dpt(None),
        ScaleConfig {
            decimal_point: 1,
            scale_factor: 1
        }
    );
}

#[test]
fn encodes_signed_values_within_the_writable_range() {
    assert_eq!(encode_i16(100, "x").unwrap(), 100);
    assert_eq!(encode_i16(0, "x").unwrap(), 0);
    assert_eq!(encode_i16(-1, "x").unwrap(), 65535);
    assert_eq!(encode_i16(-200, "x").unwrap(), 65336);
    assert_eq!(encode_i16(-32768, "x").unwrap(), 32768);
    assert_eq!(encode_i16(32000, "x").unwrap(), 32000);
}

#[test]
fn rejects_values_the_device_would_read_back_differently() {
    // 32001..=32767 overlaps the invalid-parameter marker range and
    // anything above 32767 would be read back as a negative number.
    assert!(is_out_of_range(encode_i16(32001, "x")));
    assert!(is_out_of_range(encode_i16(32767, "x")));
    assert!(is_out_of_range(encode_i16(40000, "x")));
    assert!(is_out_of_range(encode_i16(65535, "x")));
    assert!(is_out_of_range(encode_i16(-32769, "x")));
}

#[test]
fn every_encodable_value_round_trips_through_a_read() {
    for value in [-32768, -9990, -1, 0, 1, 12345, 32000] {
        let raw = encode_i16(value, "x").unwrap();
        assert_eq!(parameter_from_raw(raw).map(i64::from), Some(value));
    }
}

#[test]
fn interprets_signed_values_and_invalid_markers() {
    assert_eq!(parameter_from_raw(100), Some(100));
    assert_eq!(parameter_from_raw(32000), Some(32000));
    assert_eq!(parameter_from_raw(32511), Some(32511));
    assert_eq!(parameter_from_raw(32512), None);
    assert_eq!(parameter_from_raw(32767), None);
    assert_eq!(parameter_from_raw(32768), Some(-32768));
    assert_eq!(parameter_from_raw(65535), Some(-1));
}

#[test]
fn out_of_range_error_names_the_label_and_the_writable_range() {
    match encode_i16(40000, "PID I") {
        Err(AppError::OutOfRange {
            label,
            value,
            min,
            max,
        }) => {
            assert_eq!(label, "PID I");
            assert_eq!(value, 40000);
            assert_eq!(min, -32768);
            assert_eq!(max, 32000);
        }
        other => panic!("unexpected {other:?}"),
    }
}

#[test]
fn scaled_register_writes_apply_the_scale_factor_and_the_writable_range() {
    let two_decimals = ScaleConfig {
        decimal_point: 2,
        scale_factor: 1,
    };
    // 320.00 with two decimals is 32000 units; 400.00 would be 40000.
    assert_eq!(encode_scaled(32000, two_decimals).unwrap(), 32000);
    assert!(is_out_of_range(encode_scaled(40000, two_decimals)));
    let tenfold = ScaleConfig {
        decimal_point: 1,
        scale_factor: 10,
    };
    assert_eq!(encode_scaled(1234, tenfold).unwrap(), 12340);
    assert_eq!(encode_scaled(-20, tenfold).unwrap(), 65336);
    // Saturation keeps absurd inputs out of range instead of wrapping.
    match encode_scaled(i64::MAX, tenfold) {
        Err(AppError::OutOfRange { value, .. }) => assert_eq!(value, i64::MAX),
        other => panic!("unexpected {other:?}"),
    }
}

#[test]
fn temperature_range_is_checked_on_the_exact_register_value() {
    let one_decimal = ScaleConfig::default();
    assert!(temperature_in_range(18000, one_decimal));
    assert!(!temperature_in_range(18001, one_decimal));
    assert!(temperature_in_range(-2000, one_decimal));
    assert!(!temperature_in_range(-2001, one_decimal));
    let two_decimals = ScaleConfig {
        decimal_point: 2,
        scale_factor: 1,
    };
    assert!(!temperature_in_range(-32768, two_decimals));
    assert!(temperature_in_range(-20000, two_decimals));
    let tenfold = ScaleConfig {
        decimal_point: 1,
        scale_factor: 10,
    };
    // 18001 / 10 / 10 = 180.01 degrees.
    assert!(temperature_in_range(18001, tenfold));
    assert!(temperature_in_range(i16::MIN, ScaleConfig { decimal_point: 5, scale_factor: 1 }));
    assert!(!temperature_in_range(0, ScaleConfig { decimal_point: 1, scale_factor: 0 }));
}

#[test]
fn backed_up_temperatures_are_rewritten_at_the_scale_resolution() {
    let one_decimal = ScaleConfig::default();
    assert_eq!(reencode_temperature(1234, one_decimal).unwrap(), 1234);
    assert_eq!(reencode_temperature(-5, one_decimal).unwrap(), 65531);
    let tenfold = ScaleConfig {
        decimal_point: 1,
        scale_factor: 10,
    };
    assert_eq!(reencode_temperature(12344, tenfold).unwrap(), 12340);
    assert_eq!(reencode_temperature(12345, tenfold).unwrap(), 12350);
    assert_eq!(reencode_temperature(-15, tenfold).unwrap(), (-20i16) as u16);
    assert!(is_out_of_range(reencode_temperature(32005, tenfold)));
    assert!(is_out_of_range(reencode_temperature(32001, one_decimal)));
}

#[test]
fn the_no_data_sentinel_reads_as_no_value() {
    assert_eq!(parameter_from_raw(SENTINEL_NO_DATA), None);
}

#[test]
fn setpoint_write_rejects_values_that_overflow_the_register() {
    // A setpoint of 400.0 on a device showing two decimals is 40000 units,
    // beyond what the register accepts.
    let two_decimals = ScaleConfig {
        decimal_point: 2,
        scale_factor: 1,
    };
    let rounded = (400.0_f64 * 100.0).round() as i64;
    assert!(matches!(
        encode_scaled(rounded, two_decimals),
        Err(AppError::OutOfRange { .. })
    ));
}
