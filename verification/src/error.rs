//! The error vocabulary shared by every device operation, with a stable
//! machine-readable `kind` and an English log message for each variant.
use vstd::prelude::*;
use crate::text::{decimal_text, integer_decimal};

verus! {

/// Why writes are disabled for the connected device.
#[derive(Debug, Clone, Copy, PartialEq, Eq, Structural)]
pub enum ReadOnlyReason {
    DptUnavailable,
    UnsupportedModel,
}

/// Which safety precondition refused a run command.
#[derive(Debug, Clone, Copy, PartialEq, Eq, Structural)]
pub enum RunBlocker {
    UnsupportedModel,
    CurveNotVerified,
    InvalidPv,
    InvalidSv,
}

/// The multi-register write that failed.
#[derive(Debug, Clone, Copy, PartialEq, Eq, Structural)]
pub enum WriteOperation {
    Pid,
    Curve,
}

/// Result of restoring the previous values after a failed write.
#[derive(Debug, Clone)]
pub enum RollbackOutcome {
    Succeeded,
    Failed(String),
}

/// Every error a device operation reports.
///
/// `OutOfRange` carries whole numbers: every range check in this library is
/// made on integers (register values, counts, addresses).
#[derive(Debug, Clone)]
pub enum AppError {
    NotConnected,
    Timeout,
    OutOfRange { label: String, value: i64, min: i64, max: i64 },
    Serial(String),
    Modbus(String),
    Backend(String),
    InvalidData(String),
    Busy,
    DeviceRunning,
    /// The caller stopped waiting while a write transaction was still
    /// running; the device may hold the old or the new values.
    OutcomeUnknown(String),
    ReadOnly { reason: ReadOnlyReason },
    RunBlocked { reason: RunBlocker },
    /// A multi-register write failed after it started changing the device;
    /// `rollback` reports whether the previous values were restored.
    WriteFailed { operation: WriteOperation, cause: String, rollback: RollbackOutcome },
}

/// The mathematical content of a rollback outcome.
pub enum RollbackModel {
    Succeeded,
    Failed(Seq<char>),
}

/// The mathematical content of an `AppError`: its strings as character sequences.
pub enum ErrorModel {
    NotConnected,
    Timeout,
    OutOfRange { label: Seq<char>, value: int, min: int, max: int },
    Serial(Seq<char>),
    Modbus(Seq<char>),
    Backend(Seq<char>),
    InvalidData(Seq<char>),
    Busy,
    DeviceRunning,
    OutcomeUnknown(Seq<char>),
    ReadOnly { reason: ReadOnlyReason },
    RunBlocked { reason: RunBlocker },
    WriteFailed { operation: WriteOperation, cause: Seq<char>, rollback: RollbackModel },
}

impl View for RollbackOutcome {
    type V = RollbackModel;

    open spec fn view(&self) -> RollbackModel {
        match self {
            RollbackOutcome::Succeeded => RollbackModel::Succeeded,
            RollbackOutcome::Failed(e) => RollbackModel::Failed(e@),
        }
    }
}

impl View for AppError {
    type V = ErrorModel;

    open spec fn view(&self) -> ErrorModel {
        match self {
            AppError::NotConnected => ErrorModel::NotConnected,
            AppError::Timeout => ErrorModel::Timeout,
            AppError::OutOfRange { label, value, min, max } => ErrorModel::OutOfRange {
                label: label@,
                value: *value as int,
                min: *min as int,
                max: *max as int,
            },
            AppError::Serial(m) => ErrorModel::Serial(m@),
            AppError::Modbus(m) => ErrorModel::Modbus(m@),
            AppError::Backend(m) => ErrorModel::Backend(m@),
            AppError::InvalidData(m) => ErrorModel::InvalidData(m@),
            AppError::Busy => ErrorModel::Busy,
            AppError::DeviceRunning => ErrorModel::DeviceRunning,
            AppError::OutcomeUnknown(m) => ErrorModel::OutcomeUnknown(m@),
            AppError::ReadOnly { reason } => ErrorModel::ReadOnly { reason: *reason },
            AppError::RunBlocked { reason } => ErrorModel::RunBlocked { reason: *reason },
            AppError::WriteFailed { operation, cause, rollback } => ErrorModel::WriteFailed {
                operation: *operation,
                cause: cause@,
                rollback: rollback@,
            },
        }
    }
}

pub open spec fn read_only_reason_text(r: ReadOnlyReason) -> Seq<char> {
    match r {
        ReadOnlyReason::DptUnavailable => "DPT could not be read"@,
        ReadOnlyReason::UnsupportedModel => "its model is not supported"@,
    }
}

pub open spec fn run_blocker_text(r: RunBlocker) -> Seq<char> {
    match r {
        RunBlocker::UnsupportedModel => "run requires a supported device model"@,
        RunBlocker::CurveNotVerified => "run requires a verified curve download"@,
        RunBlocker::InvalidPv => "run requires valid PV data within the temperature range"@,
        RunBlocker::InvalidSv => "run requires valid SV data within the temperature range"@,
    }
}

pub open spec fn write_operation_text(op: WriteOperation) -> Seq<char> {
    match op {
        WriteOperation::Pid => "PID write"@,
        WriteOperation::Curve => "curve download"@,
    }
}

pub open spec fn rollback_text(r: RollbackModel) -> Seq<char> {
    match r {
        RollbackModel::Succeeded => "rollback succeeded"@,
        RollbackModel::Failed(e) => "rollback failed: "@ + e,
    }
}

/// The English log message of an error.
pub open spec fn error_text(e: ErrorModel) -> Seq<char> {
    match e {
        ErrorModel::NotConnected => "device is not connected"@,
        ErrorModel::Timeout => "operation timed out"@,
        ErrorModel::OutOfRange { label, value, min, max } => label + " out of range: "@
            + decimal_text(value) + ", expected "@ + decimal_text(min) + "..="@ + decimal_text(
            max,
        ),
        ErrorModel::Serial(m) => "serial error: "@ + m,
        ErrorModel::Modbus(m) => "modbus error: "@ + m,
        ErrorModel::Backend(m) => "backend error: "@ + m,
        ErrorModel::InvalidData(m) => "invalid data: "@ + m,
        ErrorModel::Busy => "device is busy with a write transaction"@,
        ErrorModel::DeviceRunning =>
            "a program is running; hold (HoLd) or stop it before downloading a curve"@,
        ErrorModel::OutcomeUnknown(m) => "write outcome unknown: "@ + m,
        ErrorModel::ReadOnly { reason } => "device is read-only because "@ + read_only_reason_text(
            reason,
        ),
        ErrorModel::RunBlocked { reason } => run_blocker_text(reason),
        ErrorModel::WriteFailed { operation, cause, rollback } => write_operation_text(operation)
            + " failed: "@ + cause + "; "@ + rollback_text(rollback),
    }
}

/// The stable camelCase discriminant of an error.
pub open spec fn error_kind(e: ErrorModel) -> Seq<char> {
    match e {
        ErrorModel::NotConnected => "notConnected"@,
        ErrorModel::Timeout => "timeout"@,
        ErrorModel::OutOfRange { .. } => "outOfRange"@,
        ErrorModel::Serial(_) => "serial"@,
        ErrorModel::Modbus(_) => "modbus"@,
        ErrorModel::Backend(_) => "backend"@,
        ErrorModel::InvalidData(_) => "invalidData"@,
        ErrorModel::Busy => "busy"@,
        ErrorModel::DeviceRunning => "deviceRunning"@,
        ErrorModel::OutcomeUnknown(_) => "outcomeUnknown"@,
        ErrorModel::ReadOnly { .. } => "readOnly"@,
        ErrorModel::RunBlocked { .. } => "runBlocked"@,
        ErrorModel::WriteFailed { .. } => "writeFailed"@,
    }
}

impl ReadOnlyReason {
    /// The phrase this reason contributes to a read-only message.
    pub fn message(&self) -> (s: String)
        ensures
            s@ == read_only_reason_text(*self),
    {
        match self {
            ReadOnlyReason::DptUnavailable => String::from_str("DPT could not be read"),
            ReadOnlyReason::UnsupportedModel => String::from_str("its model is not supported"),
        }
    }
}

impl RunBlocker {
    /// The sentence reported when this precondition refuses a run.
    pub fn message(&self) -> (s: String)
        ensures
            s@ == run_blocker_text(*self),
    {
        match self {
            RunBlocker::UnsupportedModel => String::from_str(
                "run requires a supported device model",
            ),
            RunBlocker::CurveNotVerified => String::from_str(
                "run requires a verified curve download",
            ),
            RunBlocker::InvalidPv => String::from_str(
                "run requires valid PV data within the temperature range",
            ),
            RunBlocker::InvalidSv => String::from_str(
                "run requires valid SV data within the temperature range",
            ),
        }
    }
}

impl WriteOperation {
    /// The name of the operation in messages.
    pub fn message(&self) -> (s: String)
        ensures
            s@ == write_operation_text(*self),
    {
        match self {
            WriteOperation::Pid => String::from_str("PID write"),
            WriteOperation::Curve => String::from_str("curve download"),
        }
    }
}

impl RollbackOutcome {
    /// `"succeeded"` or `"failed"`, the field the frontend reads.
    pub fn as_str(&self) -> (s: &'static str)
        ensures
            s@ == (match self@ {
                RollbackModel::Succeeded => "succeeded"@,
                RollbackModel::Failed(_) => "failed"@,
            }),
    {
        match self {
            RollbackOutcome::Succeeded => "succeeded",
            RollbackOutcome::Failed(_) => "failed",
        }
    }

    /// The clause this outcome adds to a write-failure message.
    pub fn message(&self) -> (s: String)
        ensures
            s@ == rollback_text(self@),
    {
        match self {
            RollbackOutcome::Succeeded => String::from_str("rollback succeeded"),
            RollbackOutcome::Failed(error) => {
                let mut s = String::from_str("rollback failed: ");
                s.append(error.as_str());
                s
            },
        }
    }
}

/// `prefix` followed by `rest`.
fn prefixed(prefix: &str, rest: &String) -> (s: String)
    ensures
        s@ == prefix@ + rest@,
{
    let mut s = String::from_str(prefix);
    s.append(rest.as_str());
    s
}

impl RollbackOutcome {
    /// A copy with the same content.
    pub fn duplicate(&self) -> (r: RollbackOutcome)
        ensures
            r@ == self@,
    {
        match self {
            RollbackOutcome::Succeeded => RollbackOutcome::Succeeded,
            RollbackOutcome::Failed(m) => RollbackOutcome::Failed(m.clone()),
        }
    }
}

impl AppError {
    /// A copy with the same content.
    pub fn duplicate(&self) -> (e: AppError)
        ensures
            e@ == self@,
    {
        match self {
            AppError::NotConnected => AppError::NotConnected,
            AppError::Timeout => AppError::Timeout,
            AppError::OutOfRange { label, value, min, max } => AppError::OutOfRange {
                label: label.clone(),
                value: *value,
                min: *min,
                max: *max,
            },
            AppError::Serial(m) => AppError::Serial(m.clone()),
            AppError::Modbus(m) => AppError::Modbus(m.clone()),
            AppError::Backend(m) => AppError::Backend(m.clone()),
            AppError::InvalidData(m) => AppError::InvalidData(m.clone()),
            AppError::Busy => AppError::Busy,
            AppError::DeviceRunning => AppError::DeviceRunning,
            AppError::OutcomeUnknown(m) => AppError::OutcomeUnknown(m.clone()),
            AppError::ReadOnly { reason } => AppError::ReadOnly { reason: *reason },
            AppError::RunBlocked { reason } => AppError::RunBlocked { reason: *reason },
            AppError::WriteFailed { operation, cause, rollback } => AppError::WriteFailed {
                operation: *operation,
                cause: cause.clone(),
                rollback: rollback.duplicate(),
            },
        }
    }

    /// An `OutOfRange` error for `value`, which had to lie in `min..=max`.
    pub fn out_of_range(label: &str, value: i64, min: i64, max: i64) -> (e: AppError)
        ensures
            e@ == (ErrorModel::OutOfRange {
                label: label@,
                value: value as int,
                min: min as int,
                max: max as int,
            }),
    {
        AppError::OutOfRange { label: String::from_str(label), value, min, max }
    }

    /// Stable, camelCase discriminant the frontend can switch on.
    pub fn kind(&self) -> (s: &'static str)
        ensures
            s@ == error_kind(self@),
    {
        match self {
            AppError::NotConnected => "notConnected",
            AppError::Timeout => "timeout",
            AppError::OutOfRange { .. } => "outOfRange",
            AppError::Serial(_) => "serial",
            AppError::Modbus(_) => "modbus",
            AppError::Backend(_) => "backend",
            AppError::InvalidData(_) => "invalidData",
            AppError::Busy => "busy",
            AppError::DeviceRunning => "deviceRunning",
            AppError::OutcomeUnknown(_) => "outcomeUnknown",
            AppError::ReadOnly { .. } => "readOnly",
            AppError::RunBlocked { .. } => "runBlocked",
            AppError::WriteFailed { .. } => "writeFailed",
        }
    }

    /// The English log message (what the error displays as).
    pub fn message(&self) -> (s: String)
        ensures
            s@ == error_text(self@),
    {
        match self {
            AppError::NotConnected => String::from_str("device is not connected"),
            AppError::Timeout => String::from_str("operation timed out"),
            AppError::OutOfRange { label, value, min, max } => {
                let mut s = label.clone();
                s.append(" out of range: ");
                let v = integer_decimal(*value);
                s.append(v.as_str());
                s.append(", expected ");
                let lo = integer_decimal(*min);
                s.append(lo.as_str());
                s.append("..=");
                let hi = integer_decimal(*max);
                s.append(hi.as_str());
                s
            },
            AppError::Serial(m) => prefixed("serial error: ", m),
            AppError::Modbus(m) => prefixed("modbus error: ", m),
            AppError::Backend(m) => prefixed("backend error: ", m),
            AppError::InvalidData(m) => prefixed("invalid data: ", m),
            AppError::Busy => String::from_str("device is busy with a write transaction"),
            AppError::DeviceRunning => String::from_str(
                "a program is running; hold (HoLd) or stop it before downloading a curve",
            ),
            AppError::OutcomeUnknown(m) => prefixed("write outcome unknown: ", m),
            AppError::ReadOnly { reason } => {
                let r = reason.message();
                prefixed("device is read-only because ", &r)
            },
            AppError::RunBlocked { reason } => reason.message(),
            AppError::WriteFailed { operation, cause, rollback } => {
                let mut s = operation.message();
                s.append(" failed: ");
                s.append(cause.as_str());
                s.append("; ");
                let r = rollback.message();
                s.append(r.as_str());
                s
            },
        }
    }
}

} // verus!
