use yudian_ai_tool::error::AppError;
use yudian_ai_tool::modbus::validate::{
    curve_fault_error, first_curve_fault, limits, segment_label_text, validate_slave_addr,
    CurveFault, SegmentDraft,
};

#[test]
fn validates_slave_address_boundaries() {
    assert!(validate_slave_addr(1).is_ok());
    assert!(validate_slave_addr(80).is_ok());
    assert!(validate_slave_addr(0).is_err());
    assert!(validate_slave_addr(81).is_err());
}

#[test]
fn slave_address_error_reports_the_allowed_range() {
    match validate_slave_addr(0) {
        Err(AppError::OutOfRange {
            label,
            value,
            min,
            max,
        }) => {
            assert_eq!(label, "slave address");
            assert_eq!((value, min, max), (0, 1, 80));
        }
        other => panic!("unexpected {other:?}"),
    }
}

fn draft(temperature_valid: bool, minutes: i32) -> SegmentDraft {
    SegmentDraft {
        temperature_valid,
        minutes,
    }
}

#[test]
fn curve_shape_checks_follow_the_limits() {
    assert_eq!(first_curve_fault(&[]), Some(CurveFault::Empty));
    let fifty = vec![draft(true, 20); 50];
    assert_eq!(first_curve_fault(&fifty), None);
    let fifty_one = vec![draft(true, 20); 51];
    assert_eq!(
        first_curve_fault(&fifty_one),
        Some(CurveFault::TooManySegments { count: 51 })
    );
    assert_eq!(
        first_curve_fault(&[draft(false, 0)]),
        Some(CurveFault::Temperature { index: 0 })
    );
    assert_eq!(
        first_curve_fault(&[draft(true, 10), draft(true, -1)]),
        Some(CurveFault::Minutes {
            index: 1,
            minutes: -1
        })
    );
    assert_eq!(first_curve_fault(&[draft(true, u16::MAX as i32)]), None);
    assert_eq!(
        first_curve_fault(&[draft(true, u16::MAX as i32 + 1)]),
        Some(CurveFault::Minutes {
            index: 0,
            minutes: 65536
        })
    );
    // The first bad segment decides, temperature before minutes.
    assert_eq!(
        first_curve_fault(&[draft(true, 5), draft(false, -3), draft(false, 0)]),
        Some(CurveFault::Temperature { index: 1 })
    );
}

#[test]
fn limits_hold_the_documented_values() {
    let l = limits();
    assert_eq!((l.temp_min, l.temp_max), (-200, 1800));
    assert_eq!(l.pid_p_max_tenths, 99999);
    assert_eq!(l.pid_i_max, 9999);
    assert_eq!(l.pid_d_max_tenths, 9999);
    assert_eq!(l.segment_max_count, 50);
    assert_eq!(l.segment_minutes_max, 65535);
    assert_eq!((l.slave_addr_min, l.slave_addr_max), (1, 80));
    assert_eq!(l.refresh_interval_min_ms, 200);
}

#[test]
fn curve_faults_are_reported_with_their_labels() {
    match curve_fault_error(CurveFault::Empty) {
        Some(AppError::InvalidData(message)) => {
            assert_eq!(message, "curve must contain at least one segment")
        }
        other => panic!("unexpected {other:?}"),
    }
    match curve_fault_error(CurveFault::TooManySegments { count: 51 }) {
        Some(AppError::OutOfRange { label, value, min, max }) => {
            assert_eq!(label, "segment count");
            assert_eq!((value, min, max), (51, 1, 50));
        }
        other => panic!("unexpected {other:?}"),
    }
    match curve_fault_error(CurveFault::Minutes { index: 12, minutes: -1 }) {
        Some(AppError::OutOfRange { label, value, min, max }) => {
            assert_eq!(label, "segment 12 minutes");
            assert_eq!((value, min, max), (-1, 0, 65535));
        }
        other => panic!("unexpected {other:?}"),
    }
    assert!(curve_fault_error(CurveFault::Temperature { index: 3 }).is_none());
    assert_eq!(segment_label_text(3, " temperature"), "segment 3 temperature");
}
