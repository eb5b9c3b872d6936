use yudian_ai_tool::device::bus::{BusOp, BusReply, Step};
use yudian_ai_tool::device::handle::{
    curve_transaction_ceiling, dispatch, Dispatch, curve_upload_timeout, pid_transaction_ceiling, request_outcome,
    transaction_ceiling, transaction_outcome, ReplyWait,
};
use yudian_ai_tool::device::session::{
    decode_pid, decode_reading, decode_setpoint, DeviceSession, PidRegisters, ReadingRegisters,
    RunCommand,
};
use yudian_ai_tool::error::{AppError, ReadOnlyReason, RunBlocker};
use yudian_ai_tool::modbus::convert::{ScaleConfig, SENTINEL_NO_DATA};
use yudian_ai_tool::modbus::registers;
use yudian_ai_tool::types::{RunStatus, StatusEvent};

fn connected_session(model: u16, dpt: Option<u16>) -> DeviceSession {
    let mut session = DeviceSession::new();
    let dpt_values = dpt.map(|raw| vec![raw]);
    session.apply_probe(&vec![model], dpt_values.as_ref());
    session
}

#[test]
fn mock_connect_and_read_info() {
    let mut session = DeviceSession::new();
    let info = session.apply_probe(&vec![registers::MODEL_AI_516P], Some(&vec![1]));
    assert!(info.connected);
    assert!(info.write_enabled);
    assert_eq!(info.model_code, Some(5167));
    assert_eq!(info.model_name.as_deref(), Some("AI-516P"));
    assert_eq!(info.decimal_point, 1);
    assert_eq!(info.scale_factor, 1);
}

#[test]
fn dpt_read_failure_keeps_device_read_only() {
    let session = connected_session(registers::MODEL_AI_516P, None);
    let info = session.info();
    assert!(info.connected);
    assert!(!info.write_enabled);
    assert_eq!((info.decimal_point, info.scale_factor), (1, 1));
    match session.ensure_writable() {
        Err(error) => {
            assert!(matches!(
                error,
                AppError::ReadOnly {
                    reason: ReadOnlyReason::DptUnavailable
                }
            ));
            assert!(error.message().contains("read-only"));
        }
        Ok(()) => panic!("writes must be refused"),
    }
    // An invalid or negative dPt counts as unreadable too.
    assert!(!connected_session(registers::MODEL_AI_516P, Some(0x7FFF)).info().write_enabled);
    assert!(!connected_session(registers::MODEL_AI_516P, Some(0xFFFF)).info().write_enabled);
}

#[test]
fn unknown_model_keeps_device_read_only() {
    let session = connected_session(9999, Some(1));
    let info = session.info();
    assert!(info.connected);
    assert_eq!(info.model_name.as_deref(), Some("未知型号(0x270F)"));
    assert!(!info.write_enabled);
    match session.ensure_writable() {
        Err(error) => assert!(error.message().contains("model")),
        Ok(()) => panic!("writes must be refused"),
    }
}

#[test]
fn dpt_with_the_high_bit_selects_the_tenfold_scale() {
    let session = connected_session(registers::MODEL_AI_518, Some(130));
    assert_eq!(
        session.scale(),
        ScaleConfig {
            decimal_point: 2,
            scale_factor: 10
        }
    );
    assert!(session.info().write_enabled);
}

#[test]
fn reset_forgets_the_device() {
    let mut session = connected_session(registers::MODEL_AI_516P, Some(1));
    session.record_transaction(true);
    session.reset_link();
    let info = session.info();
    assert!(!info.connected && !info.write_enabled);
    assert_eq!(info.model_name, None);
    assert!(!session.take_link_suspect());
}

#[test]
fn a_timed_out_transaction_leaves_the_link_suspect_once() {
    let mut session = connected_session(registers::MODEL_AI_516P, Some(1));
    session.record_transaction(false);
    assert!(!session.take_link_suspect());
    session.record_transaction(true);
    session.record_transaction(false);
    assert!(session.take_link_suspect());
    assert!(!session.take_link_suspect());
}

#[test]
fn mock_reading_contains_live_values() {
    let reading = decode_reading(&vec![1005, 1000, 12800]);
    assert_eq!(
        reading,
        ReadingRegisters {
            pv: Some(1005),
            sv: Some(1000),
            mv: Some(12800)
        }
    );
    let partial = decode_reading(&vec![SENTINEL_NO_DATA]);
    assert_eq!(
        partial,
        ReadingRegisters {
            pv: None,
            sv: None,
            mv: None
        }
    );
}

#[test]
fn pid_read_rejects_negative_integral_time() {
    assert!(matches!(
        decode_pid(&vec![120, 0xFFFF, 45]),
        Err(AppError::InvalidData(message)) if message.contains("PID I")
    ));
    assert_eq!(
        decode_pid(&vec![120, 300, 45]).unwrap(),
        PidRegisters { p: 120, i: 300, d: 45 }
    );
    assert!(matches!(
        decode_pid(&vec![0x7FFF, 300, 45]),
        Err(AppError::InvalidData(message)) if message == "PID P has no valid data"
    ));
    assert!(matches!(
        decode_pid(&vec![120, 300]),
        Err(AppError::InvalidData(message)) if message == "PID D has no valid data"
    ));
}

#[test]
fn mock_read_setpoint_returns_current_value() {
    assert_eq!(decode_setpoint(&vec![1000], ScaleConfig::default()).unwrap(), 1000);
    assert!(matches!(
        decode_setpoint(&vec![18001], ScaleConfig::default()),
        Err(AppError::InvalidData(message)) if message == "SP1 is out of range"
    ));
    assert!(matches!(
        decode_setpoint(&vec![], ScaleConfig::default()),
        Err(AppError::InvalidData(message)) if message == "SP1 has no valid data"
    ));
}

fn run_status(session: &DeviceSession, status: RunStatus, reading: Vec<u16>) -> (Vec<BusOp>, Result<(), AppError>) {
    let mut log = Vec::new();
    let (mut command, mut step) = RunCommand::start(session, true, status);
    loop {
        match step {
            Step::Issue(op) => {
                log.push(op);
                let reply = match op {
                    BusOp::Read { .. } => BusReply::Read(Ok(reading.clone())),
                    BusOp::Write { .. } => BusReply::Write(Ok(())),
                    BusOp::Pause => BusReply::Paused,
                };
                step = command.resume(reply);
            }
            Step::Finish(result) => return (log, result),
        }
    }
}

#[test]
fn run_rejects_unverified_curve() {
    let session = connected_session(registers::MODEL_AI_516P, Some(1));
    let (log, result) = run_status(&session, RunStatus::Run, vec![1000, 1000, 0]);
    assert!(log.is_empty());
    match result {
        Err(error) => {
            assert!(matches!(
                error,
                AppError::RunBlocked {
                    reason: RunBlocker::CurveNotVerified
                }
            ));
            assert!(error.message().contains("curve"));
        }
        Ok(()) => panic!("run must be refused"),
    }
}

#[test]
fn run_is_allowed_after_curve_download_verification() {
    let mut session = connected_session(registers::MODEL_AI_516P, Some(1));
    session.begin_curve_download();
    session.finish_curve_download(true);
    let (log, result) = run_status(&session, RunStatus::Run, vec![1000, 1000, 0]);
    result.unwrap();
    assert_eq!(
        log,
        [
            BusOp::Read { addr: registers::PV, count: 3 },
            BusOp::Write { addr: registers::SRUN, value: 0 },
        ]
    );
}

#[test]
fn run_rejects_invalid_pv_and_sv() {
    let mut session = connected_session(registers::MODEL_AI_516P, Some(1));
    session.finish_curve_download(true);
    let (_, pv) = run_status(&session, RunStatus::Run, vec![SENTINEL_NO_DATA, 1000, 0]);
    assert!(matches!(pv, Err(error) if error.message().contains("PV")));
    let (_, sv) = run_status(&session, RunStatus::Run, vec![1000, SENTINEL_NO_DATA, 0]);
    assert!(matches!(sv, Err(error) if error.message().contains("SV")));
    let (log, hot) = run_status(&session, RunStatus::Run, vec![18001, 1000, 0]);
    assert!(matches!(
        hot,
        Err(AppError::RunBlocked {
            reason: RunBlocker::InvalidPv
        })
    ));
    assert_eq!(log.len(), 1);
}

#[test]
fn run_rejects_unknown_model() {
    let mut session = connected_session(9999, Some(1));
    session.finish_curve_download(true);
    let (_, result) = run_status(&session, RunStatus::Run, vec![1000, 1000, 0]);
    // An unknown model is read-only, which refuses every run command.
    assert!(matches!(result, Err(error) if error.message().contains("model")));
}

#[test]
fn hold_and_stop_write_the_run_register_directly() {
    let session = connected_session(registers::MODEL_AI_516P, Some(1));
    let (log, result) = run_status(&session, RunStatus::Stop, vec![]);
    result.unwrap();
    assert_eq!(log, [BusOp::Write { addr: registers::SRUN, value: 1 }]);
    let (log, _) = run_status(&session, RunStatus::Hold, vec![]);
    assert_eq!(log, [BusOp::Write { addr: registers::SRUN, value: 2 }]);
    assert_eq!(RunStatus::Run.register_value(), 0);

    let (_, step) = RunCommand::start(&session, false, RunStatus::Stop);
    assert!(matches!(step, Step::Finish(Err(AppError::NotConnected))));
}

#[test]
fn status_events_mirror_the_device_info() {
    let session = connected_session(registers::MODEL_AI_516P, Some(1));
    let event = StatusEvent::from_info(&session.info());
    assert!(event.connected);
    assert_eq!(event.model.as_deref(), Some("AI-516P"));
    let empty = StatusEvent::from_info(&DeviceSession::new().info());
    assert!(!empty.connected && empty.model.is_none());
}

#[test]
fn request_replies_are_classified() {
    assert_eq!(request_outcome(ReplyWait::Answered(Ok(7)), true, true).unwrap(), 7);
    assert!(matches!(
        request_outcome::<u8>(ReplyWait::TimedOut, true, true),
        Err(AppError::Busy)
    ));
    assert!(matches!(
        request_outcome::<u8>(ReplyWait::TimedOut, false, false),
        Err(AppError::Timeout)
    ));
    assert!(matches!(
        request_outcome::<u8>(ReplyWait::Dropped, false, true),
        Err(AppError::Timeout)
    ));
    assert!(matches!(
        request_outcome::<u8>(ReplyWait::Dropped, false, false),
        Err(AppError::Backend(message)) if message == "device actor dropped response"
    ));
    assert!(matches!(
        transaction_outcome::<u8>(false, ReplyWait::Answered(Ok(1))),
        Err(AppError::Timeout)
    ));
    assert!(matches!(
        transaction_outcome::<u8>(true, ReplyWait::TimedOut),
        Err(AppError::OutcomeUnknown(_))
    ));
    assert_eq!(transaction_outcome(true, ReplyWait::Answered(Ok(3))).unwrap(), 3);
}

#[test]
fn waits_cover_the_worst_case() {
    assert_eq!(curve_upload_timeout(), 105_000);
    assert_eq!(transaction_ceiling(2, 3), 2_000 + 150 + 5_000);
    assert_eq!(pid_transaction_ceiling(), 14_000);
    // One new segment: 1 + 50 + 6 + 202 operations and 101 throttles.
    assert_eq!(curve_transaction_ceiling(1), 259_000 + 5_050 + 5_000);
}

#[test]
fn abandoned_or_expired_transactions_are_skipped() {
    assert_eq!(dispatch(false, true, true), Dispatch::Transaction);
    // The caller left before the start was announced.
    assert_eq!(dispatch(false, true, false), Dispatch::Skip);
    // The queue deadline passed first.
    assert_eq!(dispatch(true, true, true), Dispatch::Skip);
    assert_eq!(dispatch(true, false, true), Dispatch::Skip);
    assert_eq!(dispatch(false, false, true), Dispatch::Request);
    // The caller of a transaction that never started reports a timeout.
    assert!(matches!(
        transaction_outcome::<()>(false, ReplyWait::TimedOut),
        Err(AppError::Timeout)
    ));
}
