use yudian_ai_tool::error::{AppError, ReadOnlyReason, RollbackOutcome, RunBlocker, WriteOperation};

fn all_variants() -> Vec<AppError> {
    vec![
        AppError::NotConnected,
        AppError::Timeout,
        AppError::out_of_range("temperature", 5, 0, 2),
        AppError::Serial("port busy".to_string()),
        AppError::Modbus("crc mismatch".to_string()),
        AppError::Backend("actor down".to_string()),
        AppError::InvalidData("PID P has no valid data".to_string()),
        AppError::Busy,
        AppError::DeviceRunning,
        AppError::OutcomeUnknown("curve download still running".to_string()),
        AppError::ReadOnly {
            reason: ReadOnlyReason::DptUnavailable,
        },
        AppError::RunBlocked {
            reason: RunBlocker::CurveNotVerified,
        },
        AppError::WriteFailed {
            operation: WriteOperation::Curve,
            cause: "segment 1 read-back mismatch".to_string(),
            rollback: RollbackOutcome::Succeeded,
        },
    ]
}

#[test]
fn every_variant_has_a_stable_kind_and_a_message() {
    let kinds: Vec<&str> = all_variants().iter().map(|e| e.kind()).collect();
    assert_eq!(
        kinds,
        [
            "notConnected",
            "timeout",
            "outOfRange",
            "serial",
            "modbus",
            "backend",
            "invalidData",
            "busy",
            "deviceRunning",
            "outcomeUnknown",
            "readOnly",
            "runBlocked",
            "writeFailed"
        ]
    );
    let messages: Vec<String> = all_variants().iter().map(|e| e.message()).collect();
    assert_eq!(
        messages,
        [
            "device is not connected",
            "operation timed out",
            "temperature out of range: 5, expected 0..=2",
            "serial error: port busy",
            "modbus error: crc mismatch",
            "backend error: actor down",
            "invalid data: PID P has no valid data",
            "device is busy with a write transaction",
            "a program is running; hold (HoLd) or stop it before downloading a curve",
            "write outcome unknown: curve download still running",
            "device is read-only because DPT could not be read",
            "run requires a verified curve download",
            "curve download failed: segment 1 read-back mismatch; rollback succeeded",
        ]
    );
}

#[test]
fn structured_variants_carry_their_fields_into_the_message() {
    let range = AppError::out_of_range("PID D", -400, 0, 3200);
    assert_eq!(range.message(), "PID D out of range: -400, expected 0..=3200");

    let failed = AppError::WriteFailed {
        operation: WriteOperation::Pid,
        cause: "timeout".to_string(),
        rollback: RollbackOutcome::Failed("timeout".to_string()),
    };
    assert_eq!(failed.kind(), "writeFailed");
    assert_eq!(
        failed.message(),
        "PID write failed: timeout; rollback failed: timeout"
    );

    let read_only = AppError::ReadOnly {
        reason: ReadOnlyReason::UnsupportedModel,
    };
    assert_eq!(
        read_only.message(),
        "device is read-only because its model is not supported"
    );
    for (reason, text) in [
        (RunBlocker::UnsupportedModel, "run requires a supported device model"),
        (
            RunBlocker::InvalidPv,
            "run requires valid PV data within the temperature range",
        ),
        (
            RunBlocker::InvalidSv,
            "run requires valid SV data within the temperature range",
        ),
    ] {
        assert_eq!(AppError::RunBlocked { reason }.message(), text);
    }
}

#[test]
fn rollback_outcome_names_its_result() {
    assert_eq!(RollbackOutcome::Succeeded.as_str(), "succeeded");
    assert_eq!(RollbackOutcome::Failed("x".to_string()).as_str(), "failed");
    assert_eq!(RollbackOutcome::Succeeded.message(), "rollback succeeded");
    assert_eq!(
        RollbackOutcome::Failed("timeout".to_string()).message(),
        "rollback failed: timeout"
    );
}

#[test]
fn a_duplicate_keeps_the_content() {
    for error in all_variants() {
        let copy = error.duplicate();
        assert_eq!(copy.kind(), error.kind());
        assert_eq!(copy.message(), error.message());
    }
}
