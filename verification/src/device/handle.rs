//! How long callers of the device actor wait, and what they report when the
//! wait ends. Durations are in milliseconds.
use vstd::prelude::*;
use crate::error::{AppError, ErrorModel};
use crate::modbus::validate::SEGMENT_MAX_COUNT;

verus! {

pub const DEFAULT_REQUEST_TIMEOUT_MS: u64 = 3000;

pub const CONNECT_REQUEST_TIMEOUT_MS: u64 = 5000;

pub const CURVE_UPLOAD_BASE_TIMEOUT_MS: u64 = 5000;

pub const CURVE_UPLOAD_PER_SEGMENT_TIMEOUT_MS: u64 = 2000;

/// How long a write transaction may wait in the queue before the caller
/// gives up; an abandoned transaction is skipped without touching the bus.
pub const TRANSACTION_QUEUE_TIMEOUT_MS: u64 = 5000;

/// Upper bound for a single backend call inside a write transaction.
pub const TRANSACTION_OP_TIMEOUT_MS: u64 = 1000;

/// The pause between curve segments.
pub const SEGMENT_THROTTLE_MS: u64 = 50;

/// Slack for scheduling on top of a transaction's worst case.
pub const TRANSACTION_SLACK_MS: u64 = 5000;

/// Time allowed for reading the longest curve.
pub fn curve_upload_timeout() -> (ms: u64)
    ensures
        ms == CURVE_UPLOAD_BASE_TIMEOUT_MS + SEGMENT_MAX_COUNT * CURVE_UPLOAD_PER_SEGMENT_TIMEOUT_MS,
{
    CURVE_UPLOAD_BASE_TIMEOUT_MS + SEGMENT_MAX_COUNT as u64 * CURVE_UPLOAD_PER_SEGMENT_TIMEOUT_MS
}

/// Worst case for a transaction whose every backend call runs into
/// `TRANSACTION_OP_TIMEOUT_MS`, plus slack for scheduling.
pub fn transaction_ceiling(ops: u64, throttles: u64) -> (ms: u64)
    requires
        ops <= u32::MAX,
        throttles <= u32::MAX,
    ensures
        ms == TRANSACTION_OP_TIMEOUT_MS * ops + SEGMENT_THROTTLE_MS * throttles
            + TRANSACTION_SLACK_MS,
{
    TRANSACTION_OP_TIMEOUT_MS * ops + SEGMENT_THROTTLE_MS * throttles + TRANSACTION_SLACK_MS
}

/// Backup read, then three writes and a read-back, forward and again for
/// the rollback.
pub fn pid_transaction_ceiling() -> (ms: u64)
    ensures
        ms == TRANSACTION_OP_TIMEOUT_MS * 9 + TRANSACTION_SLACK_MS,
{
    transaction_ceiling(1 + 4 + 4, 0)
}

/// The backup can hold up to the longest curve, which the rollback
/// rewrites; each segment takes two writes and a read-back plus a final
/// read, and the count a write and a read-back.
pub fn curve_transaction_ceiling(new_count: u64) -> (ms: u64)
    requires
        new_count <= 1_073_741_760,
    ensures
        ms == transaction_ops_ms(new_count as int),
{
    let backup = SEGMENT_MAX_COUNT as u64;
    transaction_ceiling(1 + backup + (4 * new_count + 2) + (4 * backup + 2), backup + new_count + backup)
}

pub open spec fn transaction_ops_ms(new_count: int) -> int {
    let backup = SEGMENT_MAX_COUNT as int;
    TRANSACTION_OP_TIMEOUT_MS * (1 + backup + (4 * new_count + 2) + (4 * backup + 2))
        + SEGMENT_THROTTLE_MS * (backup + new_count + backup) + TRANSACTION_SLACK_MS
}

/// How the wait for the actor's reply ended.
pub enum ReplyWait<T> {
    /// The actor answered.
    Answered(Result<T, AppError>),
    /// The actor dropped the reply channel without answering.
    Dropped,
    /// The deadline passed first.
    TimedOut,
}

/// What a queued request reports: the answer, `Busy` when a write
/// transaction started meanwhile, `Timeout` when the deadline passed, and a
/// backend error when the actor dropped the request early.
pub open spec fn request_report<V>(wait: ReplyWait<V>, busy: bool, deadline_passed: bool) -> Result<
    V,
    ErrorModel,
> {
    match wait {
        ReplyWait::Answered(Ok(v)) => Ok(v),
        ReplyWait::Answered(Err(e)) => Err(e@),
        _ => if busy {
            Err(ErrorModel::Busy)
        } else if wait is TimedOut || deadline_passed {
            Err(ErrorModel::Timeout)
        } else {
            Err(ErrorModel::Backend("device actor dropped response"@))
        },
    }
}

pub fn request_outcome<T>(wait: ReplyWait<T>, busy: bool, deadline_passed: bool) -> (r: Result<T, AppError>)
    ensures
        match (r, request_report(wait, busy, deadline_passed)) {
            (Ok(a), Ok(b)) => a == b,
            (Err(e), Err(m)) => e@ == m,
            _ => false,
        },
{
    match wait {
        ReplyWait::Answered(result) => result,
        ReplyWait::TimedOut => if busy {
            Err(AppError::Busy)
        } else {
            Err(AppError::Timeout)
        },
        ReplyWait::Dropped => if busy {
            Err(AppError::Busy)
        } else if deadline_passed {
            Err(AppError::Timeout)
        } else {
            Err(AppError::Backend(String::from_str("device actor dropped response")))
        },
    }
}

/// What a write transaction reports: `Timeout` when it never started (it is
/// then skipped unwritten), its answer when it finished within the ceiling,
/// and `OutcomeUnknown` when it is still running.
pub open spec fn transaction_report<V>(started: bool, wait: ReplyWait<V>) -> Result<V, ErrorModel> {
    if !started {
        Err(ErrorModel::Timeout)
    } else {
        match wait {
            ReplyWait::Answered(Ok(v)) => Ok(v),
            ReplyWait::Answered(Err(e)) => Err(e@),
            ReplyWait::Dropped => Err(ErrorModel::Backend("device actor dropped response"@)),
            ReplyWait::TimedOut => Err(
                ErrorModel::OutcomeUnknown(
                    "write transaction is still running; re-read the device"@,
                ),
            ),
        }
    }
}

pub fn transaction_outcome<T>(started: bool, wait: ReplyWait<T>) -> (r: Result<T, AppError>)
    ensures
        match (r, transaction_report(started, wait)) {
            (Ok(a), Ok(b)) => a == b,
            (Err(e), Err(m)) => e@ == m,
            _ => false,
        },
{
    if !started {
        return Err(AppError::Timeout);
    }
    match wait {
        ReplyWait::Answered(result) => result,
        ReplyWait::Dropped => Err(AppError::Backend(String::from_str("device actor dropped response"))),
        ReplyWait::TimedOut => Err(
            AppError::OutcomeUnknown(
                String::from_str("write transaction is still running; re-read the device"),
            ),
        ),
    }
}

/// What the actor does with a request it takes from the queue.
#[derive(Debug, Clone, Copy, PartialEq, Eq, Structural)]
pub enum Dispatch {
    /// Dropped without running its handler: no bus operation is made.
    Skip,
    /// Run under the request's deadline; a deadline hit resets the link.
    Request,
    /// Run to completion with the busy flag raised, so that a failure is
    /// always followed by its rollback.
    Transaction,
}

/// The actor's choice: a request whose deadline passed while it was queued
/// is skipped; a write transaction is run only while its caller still waits
/// for the start (`caller_waiting`, learnt by announcing the start).
pub open spec fn dispatch_of(deadline_passed: bool, transaction: bool, caller_waiting: bool) -> Dispatch {
    if deadline_passed {
        Dispatch::Skip
    } else if !transaction {
        Dispatch::Request
    } else if caller_waiting {
        Dispatch::Transaction
    } else {
        Dispatch::Skip
    }
}

pub fn dispatch(deadline_passed: bool, transaction: bool, caller_waiting: bool) -> (d: Dispatch)
    ensures
        d == dispatch_of(deadline_passed, transaction, caller_waiting),
{
    if deadline_passed {
        Dispatch::Skip
    } else if !transaction {
        Dispatch::Request
    } else if caller_waiting {
        Dispatch::Transaction
    } else {
        Dispatch::Skip
    }
}

/// A write transaction that its caller abandoned, or whose queue deadline
/// passed before the actor reached it, is skipped without any bus
/// operation, and its caller, which never saw it start, reports `Timeout`.
/// A transaction is run only when neither holds.
pub proof fn law_abandoned_transaction_is_skipped<V>(
    deadline_passed: bool,
    caller_waiting: bool,
    wait: ReplyWait<V>,
)
    ensures
        dispatch_of(deadline_passed, true, caller_waiting) == Dispatch::Skip <==> (deadline_passed
            || !caller_waiting),
        dispatch_of(deadline_passed, true, caller_waiting) == Dispatch::Transaction <==> (
        !deadline_passed && caller_waiting),
        transaction_report(false, wait) == Err::<V, ErrorModel>(ErrorModel::Timeout),
{
}

} // verus!
