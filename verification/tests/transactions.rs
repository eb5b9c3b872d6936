use std::collections::HashMap;

use yudian_ai_tool::backend::mock::MockBackend;
use yudian_ai_tool::device::bus::{BusOp, BusReply, Step};
use yudian_ai_tool::device::curve::{CurvePoint, CurveReader, CurveTransaction};
use yudian_ai_tool::device::handle::{curve_transaction_ceiling, SEGMENT_THROTTLE_MS};
use yudian_ai_tool::device::pid::PidTransaction;
use yudian_ai_tool::error::{AppError, RollbackOutcome, WriteOperation};
use yudian_ai_tool::modbus::convert::ScaleConfig;
use yudian_ai_tool::modbus::registers;
use yudian_ai_tool::types::ConnectionConfig;

/// A scripted device: a register map, a write counter that can fail one
/// write, and a log of the operations performed.
struct Script {
    registers: HashMap<u16, u16>,
    writes: usize,
    failing_writes: Vec<usize>,
    log: Vec<BusOp>,
}

impl Script {
    fn new(entries: &[(u16, u16)]) -> Self {
        Script {
            registers: entries.iter().copied().collect(),
            writes: 0,
            failing_writes: Vec::new(),
            log: Vec::new(),
        }
    }

    fn with_curve(segments: &[(u16, u16)]) -> Self {
        let mut script = Script::new(&[(registers::PNO, segments.len() as u16)]);
        for (index, (t, m)) in segments.iter().enumerate() {
            let base = registers::SP_START + index as u16 * 2;
            script.registers.insert(base, *t);
            script.registers.insert(base + 1, *m);
        }
        script
    }

    fn curve(&self) -> Vec<(u16, u16)> {
        let pno = self.registers.get(&registers::PNO).copied().unwrap_or(0);
        (0..pno)
            .map(|index| {
                let base = registers::SP_START + index * 2;
                (self.registers[&base], self.registers[&(base + 1)])
            })
            .collect()
    }

    fn answer(&mut self, op: BusOp) -> BusReply {
        self.log.push(op);
        match op {
            BusOp::Read { addr, count } => BusReply::Read(Ok((0..count)
                .map(|offset| self.registers.get(&(addr + offset)).copied().unwrap_or(0))
                .collect())),
            BusOp::Write { addr, value } => {
                self.writes += 1;
                if self.failing_writes.contains(&self.writes) {
                    return BusReply::Write(Err(AppError::Backend(
                        "injected write failure".to_string(),
                    )));
                }
                self.registers.insert(addr, value);
                BusReply::Write(Ok(()))
            }
            BusOp::Pause => BusReply::Paused,
        }
    }
}

fn mock_answer(mock: &mut MockBackend, op: BusOp) -> BusReply {
    match op {
        BusOp::Read { addr, count } => BusReply::Read(mock.read_registers(addr, count)),
        BusOp::Write { addr, value } => BusReply::Write(mock.write_register(addr, value)),
        BusOp::Pause => BusReply::Paused,
    }
}

fn run_pid(script: &mut Script, encoded: [u16; 3]) -> Result<(), AppError> {
    let (mut tx, mut step) = PidTransaction::start(encoded);
    loop {
        match step {
            Step::Issue(op) => step = tx.resume(script.answer(op)),
            Step::Finish(result) => return result,
        }
    }
}

fn run_curve(script: &mut Script, encoded: Vec<(u16, u16)>) -> Result<(), AppError> {
    let (mut tx, mut step) = CurveTransaction::start(ScaleConfig::default(), encoded);
    loop {
        match step {
            Step::Issue(op) => step = tx.resume(script.answer(op)),
            Step::Finish(result) => return result,
        }
    }
}

fn read_curve(script: &mut Script) -> Result<Vec<CurvePoint>, AppError> {
    let (mut reader, mut step) = CurveReader::start(ScaleConfig::default());
    loop {
        match step {
            Step::Issue(op) => step = reader.resume(script.answer(op)),
            Step::Finish(result) => return result,
        }
    }
}

fn pid_registers(script: &Script) -> [u16; 3] {
    [
        script.registers[&registers::P],
        script.registers[&registers::I],
        script.registers[&registers::D],
    ]
}

#[test]
fn pid_write_round_trip_uses_mock_backend() {
    let mut mock = MockBackend::normal();
    let cfg = ConnectionConfig {
        port: "MOCK".to_string(),
        slave_addr: 1,
        baudrate: 9600,
    };
    mock.connect(&cfg).unwrap();
    let (mut tx, mut step) = PidTransaction::start([125, 240, 30]);
    let result = loop {
        match step {
            Step::Issue(op) => step = tx.resume(mock_answer(&mut mock, op)),
            Step::Finish(result) => break result,
        }
    };
    assert!(result.is_ok());
    assert_eq!(mock.read_registers(registers::P, 3).unwrap(), vec![125, 240, 30]);
}

#[test]
fn pid_write_rolls_back_when_middle_register_write_fails() {
    let mut script = Script::new(&[(registers::P, 120), (registers::I, 300), (registers::D, 45)]);
    script.failing_writes = vec![2];

    let result = run_pid(&mut script, [125, 240, 30]);

    match result {
        Err(AppError::WriteFailed {
            operation: WriteOperation::Pid,
            cause,
            rollback: RollbackOutcome::Succeeded,
        }) => assert_eq!(cause, "backend error: injected write failure"),
        other => panic!("unexpected {other:?}"),
    }
    assert!(result_message_contains(
        run_pid_failing(2),
        "rollback succeeded"
    ));
    assert_eq!(pid_registers(&script), [120, 300, 45]);
}

fn run_pid_failing(fail_on_write: usize) -> Result<(), AppError> {
    let mut script = Script::new(&[(registers::P, 120), (registers::I, 300), (registers::D, 45)]);
    script.failing_writes = vec![fail_on_write];
    run_pid(&mut script, [125, 240, 30])
}

fn result_message_contains(result: Result<(), AppError>, needle: &str) -> bool {
    match result {
        Err(error) => error.message().contains(needle),
        Ok(()) => false,
    }
}

#[test]
fn pid_rollback_restores_after_a_late_failure() {
    let mut script = Script::new(&[(registers::P, 120), (registers::I, 300), (registers::D, 45)]);
    script.failing_writes = vec![5];
    // Writes 1-3 succeed and the read-back matches: no fifth write happens.
    assert!(run_pid(&mut script, [125, 240, 30]).is_ok());
    assert_eq!(pid_registers(&script), [125, 240, 30]);

    let mut script = Script::new(&[(registers::P, 120), (registers::I, 300), (registers::D, 45)]);
    script.failing_writes = vec![3];
    // The third write fails; the rollback writes P, I and D back.
    let result = run_pid(&mut script, [125, 240, 30]);
    assert!(matches!(
        result,
        Err(AppError::WriteFailed {
            rollback: RollbackOutcome::Succeeded,
            ..
        })
    ));
    assert_eq!(pid_registers(&script), [120, 300, 45]);
}

#[test]
fn pid_rollback_failure_is_reported() {
    let mut script = Script::new(&[(registers::P, 120), (registers::I, 300), (registers::D, 45)]);
    script.failing_writes = vec![2, 4];
    match run_pid(&mut script, [125, 240, 30]) {
        Err(error) => {
            assert_eq!(error.kind(), "writeFailed");
            assert_eq!(
                error.message(),
                "PID write failed: backend error: injected write failure; \
                 rollback failed: backend error: injected write failure"
            );
        }
        Ok(()) => panic!("the write must fail"),
    }
    // The rollback restored P and stopped at I, which the forward write had
    // not changed either.
    assert_eq!(pid_registers(&script), [120, 300, 45]);
}

#[test]
fn a_failed_backup_performs_no_writes() {
    let (mut tx, step) = PidTransaction::start([1, 2, 3]);
    assert!(matches!(
        step,
        Step::Issue(BusOp::Read {
            addr: registers::P,
            count: 3
        })
    ));
    let next = tx.resume(BusReply::Read(Err(AppError::Timeout)));
    assert!(matches!(next, Step::Finish(Err(AppError::Timeout))));

    let (mut tx, _) = PidTransaction::start([1, 2, 3]);
    let next = tx.resume(BusReply::Read(Ok(vec![1, 2])));
    match next {
        Step::Finish(Err(AppError::InvalidData(message))) => {
            assert_eq!(message, "PID backup has insufficient data")
        }
        other => panic!("unexpected {other:?}"),
    }
}

#[test]
fn pid_read_back_mismatch_rolls_back() {
    let (mut tx, _) = PidTransaction::start([1, 2, 3]);
    assert!(matches!(
        tx.resume(BusReply::Read(Ok(vec![7, 8, 9]))),
        Step::Issue(BusOp::Write { addr: registers::P, value: 1 })
    ));
    tx.resume(BusReply::Write(Ok(())));
    tx.resume(BusReply::Write(Ok(())));
    assert!(matches!(
        tx.resume(BusReply::Write(Ok(()))),
        Step::Issue(BusOp::Read { addr: registers::P, count: 3 })
    ));
    // The device reads back something else: the backup is written again.
    assert!(matches!(
        tx.resume(BusReply::Read(Ok(vec![1, 2, 4]))),
        Step::Issue(BusOp::Write { addr: registers::P, value: 7 })
    ));
    tx.resume(BusReply::Write(Ok(())));
    tx.resume(BusReply::Write(Ok(())));
    tx.resume(BusReply::Write(Ok(())));
    match tx.resume(BusReply::Read(Ok(vec![7, 8, 9]))) {
        Step::Finish(Err(error)) => assert_eq!(
            error.message(),
            "PID write failed: invalid data: PID read-back verification failed; rollback succeeded"
        ),
        other => panic!("unexpected {other:?}"),
    }
}

#[test]
fn curve_round_trip_uses_mock_backend() {
    let mut script = Script::with_curve(&[(1000, 20), (1500, 30), (800, 15)]);
    run_curve(&mut script, vec![(1200, 10), (800, 5)]).unwrap();
    assert_eq!(script.curve(), [(1200, 10), (800, 5)]);
    assert_eq!(
        read_curve(&mut script).unwrap(),
        vec![
            CurvePoint {
                temperature: 1200,
                minutes: 10
            },
            CurvePoint {
                temperature: 800,
                minutes: 5
            }
        ]
    );
}

#[test]
fn curve_transaction_can_replace_a_longer_curve_with_a_shorter_curve() {
    let mut script = Script::with_curve(&[]);
    run_curve(&mut script, vec![(1000, 10), (2000, 20), (3000, 30)]).unwrap();
    run_curve(&mut script, vec![(1500, 15)]).unwrap();
    assert_eq!(script.curve(), [(1500, 15)]);
    // Reading the curve back gives the short curve, no stale segment.
    assert_eq!(
        read_curve(&mut script).unwrap(),
        vec![CurvePoint {
            temperature: 1500,
            minutes: 15
        }]
    );
}

#[test]
fn hung_write_mid_download_rolls_back_to_the_original_curve() {
    let original = [(1000, 20), (1500, 30)];
    let mut script = Script::with_curve(&original);
    // The count is written first, so the fifth write is segment 1's minutes.
    script.failing_writes = vec![5];
    let result = run_curve(&mut script, vec![(1200, 10), (800, 5)]);
    assert!(result_message_contains(result, "rollback succeeded"));
    assert_eq!(script.curve(), original);
}

#[test]
fn curve_download_writes_the_count_then_the_segments() {
    let mut script = Script::with_curve(&[(1000, 20)]);
    run_curve(&mut script, vec![(1200, 10)]).unwrap();
    let writes: Vec<BusOp> = script
        .log
        .iter()
        .copied()
        .filter(|op| matches!(op, BusOp::Write { .. }))
        .collect();
    assert_eq!(
        writes,
        [
            BusOp::Write { addr: registers::PNO, value: 1 },
            BusOp::Write { addr: registers::SP_START, value: 1200 },
            BusOp::Write { addr: registers::SP_START + 1, value: 10 },
        ]
    );
    // Backup: PNO, segment 0 and a pause; then the count and its read-back;
    // per segment two writes, the throttle pause and a read-back; the final
    // read.
    assert_eq!(
        script.log,
        vec![
            BusOp::Read { addr: registers::PNO, count: 1 },
            BusOp::Read { addr: registers::SP_START, count: 2 },
            BusOp::Pause,
            BusOp::Write { addr: registers::PNO, value: 1 },
            BusOp::Read { addr: registers::PNO, count: 1 },
            BusOp::Write { addr: registers::SP_START, value: 1200 },
            BusOp::Write { addr: registers::SP_START + 1, value: 10 },
            BusOp::Pause,
            BusOp::Read { addr: registers::SP_START, count: 2 },
            BusOp::Read { addr: registers::SP_START, count: 2 },
        ]
    );
}

#[test]
fn upload_curve_rejects_segment_count_above_limit() {
    let mut script = Script::new(&[(registers::PNO, 51)]);
    match read_curve(&mut script) {
        Err(AppError::OutOfRange { label, value, min, max }) => {
            assert_eq!(label, "curve segment count");
            assert_eq!((value, min, max), (51, 0, 50));
        }
        other => panic!("unexpected {other:?}"),
    }
}

#[test]
fn upload_curve_accepts_empty_curve() {
    let mut script = Script::new(&[(registers::PNO, 0)]);
    assert!(read_curve(&mut script).unwrap().is_empty());
}

#[test]
fn upload_curve_rejects_missing_segment_count() {
    let mut script = Script::new(&[(registers::PNO, 32767)]);
    assert!(matches!(
        read_curve(&mut script),
        Err(AppError::InvalidData(message)) if message.contains("PNO")
    ));
}

#[test]
fn upload_curve_rejects_negative_segment_minutes() {
    let mut script = Script::new(&[
        (registers::PNO, 1),
        (registers::SP_START, 1000),
        (registers::SP_START + 1, 65535),
    ]);
    assert!(matches!(
        read_curve(&mut script),
        Err(AppError::InvalidData(message)) if message.contains("segment 0 minutes")
    ));
    // The throttle pause follows the failed segment too.
    assert_eq!(script.log.last(), Some(&BusOp::Pause));
}

#[test]
fn upload_curve_rejects_out_of_range_and_invalid_segments() {
    let mut script = Script::new(&[
        (registers::PNO, 2),
        (registers::SP_START, 1000),
        (registers::SP_START + 1, 5),
        (registers::SP_START + 2, 18001),
        (registers::SP_START + 3, 5),
    ]);
    assert!(matches!(
        read_curve(&mut script),
        Err(AppError::InvalidData(message)) if message == "curve segment 1 temperature is out of range"
    ));
    let mut script = Script::new(&[
        (registers::PNO, 1),
        (registers::SP_START, 0x7FFF),
        (registers::SP_START + 1, 5),
    ]);
    assert!(matches!(
        read_curve(&mut script),
        Err(AppError::InvalidData(message)) if message == "curve segment 0 contains invalid data"
    ));
}

#[test]
fn mock_curve_reads_back_its_three_segments() {
    let mut mock = MockBackend::normal();
    mock.connect(&ConnectionConfig {
        port: "MOCK".to_string(),
        slave_addr: 1,
        baudrate: 9600,
    })
    .unwrap();
    let (mut reader, mut step) = CurveReader::start(ScaleConfig::default());
    let points = loop {
        match step {
            Step::Issue(op) => step = reader.resume(mock_answer(&mut mock, op)),
            Step::Finish(result) => break result.unwrap(),
        }
    };
    assert_eq!(
        points,
        vec![
            CurvePoint { temperature: 1000, minutes: 20 },
            CurvePoint { temperature: 1500, minutes: 30 },
            CurvePoint { temperature: 800, minutes: 15 },
        ]
    );
}

#[test]
fn curve_read_pauses_after_every_segment() {
    let mut script = Script::with_curve(&[(1000, 20), (1500, 30)]);
    assert_eq!(read_curve(&mut script).unwrap().len(), 2);
    assert_eq!(
        script.log,
        vec![
            BusOp::Read { addr: registers::PNO, count: 1 },
            BusOp::Read { addr: registers::SP_START, count: 2 },
            BusOp::Pause,
            BusOp::Read { addr: registers::SP_START + 2, count: 2 },
            BusOp::Pause,
        ]
    );
}

#[test]
fn slow_download_beyond_the_old_fixed_budget_still_commits() {
    // Old budget for one segment was 5 + 2 * 1 = 7 s; backing up five
    // segments and writing one at 0.9 s per operation takes about 11 s.
    let mut script = Script::with_curve(&[(1000, 20); 5]);
    run_curve(&mut script, vec![(1200, 10)]).unwrap();
    assert_eq!(script.curve(), [(1200, 10)]);
    let operations = script.log.iter().filter(|op| !matches!(op, BusOp::Pause)).count() as u64;
    let pauses = script.log.len() as u64 - operations;
    let elapsed_ms = operations * 900 + pauses * SEGMENT_THROTTLE_MS;
    assert!(elapsed_ms > 7_000);
    assert!(elapsed_ms < curve_transaction_ceiling(1));
}

#[test]
fn a_download_on_the_mock_is_read_back_as_written() {
    let mut mock = MockBackend::normal();
    mock.connect(&ConnectionConfig {
        port: "MOCK".to_string(),
        slave_addr: 1,
        baudrate: 9600,
    })
    .unwrap();
    let (mut tx, mut step) = CurveTransaction::start(ScaleConfig::default(), vec![(1200, 10), (800, 5)]);
    let result = loop {
        match step {
            Step::Issue(op) => step = tx.resume(mock_answer(&mut mock, op)),
            Step::Finish(result) => break result,
        }
    };
    result.unwrap();
    let (mut reader, mut step) = CurveReader::start(ScaleConfig::default());
    let points = loop {
        match step {
            Step::Issue(op) => step = reader.resume(mock_answer(&mut mock, op)),
            Step::Finish(result) => break result.unwrap(),
        }
    };
    assert_eq!(
        points,
        vec![
            CurvePoint { temperature: 1200, minutes: 10 },
            CurvePoint { temperature: 800, minutes: 5 },
        ]
    );
}
