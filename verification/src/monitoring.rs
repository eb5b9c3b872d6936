//! The live-monitoring policy: how often readings are taken, how failures
//! back off, which failures are reported, and when monitoring gives up.
use vstd::prelude::*;
use crate::error::{AppError, ErrorModel, error_text};
use crate::modbus::validate::limits;
use crate::text::{decimal_text, natural_decimal};

verus! {

/// Consecutive failures after which monitoring disconnects and stops.
pub const MONITOR_MAX_FAILURES: u32 = 5;

/// The longest backoff, unless the interval itself is longer.
pub const MONITOR_BACKOFF_CAP_MS: u64 = 30000;

/// `2^n` for `n <= 3`.
pub open spec fn doubling(n: int) -> int {
    if n <= 0 {
        1
    } else if n == 1 {
        2
    } else if n == 2 {
        4
    } else {
        8
    }
}

/// The wait after the `failures`-th consecutive failure: the interval,
/// doubled per further failure up to eight times it, capped at thirty
/// seconds unless the interval is longer.
pub open spec fn backoff_ms(interval_ms: int, failures: int) -> int {
    let shift = if failures - 1 < 0 {
        0
    } else if failures - 1 > 3 {
        3
    } else {
        failures - 1
    };
    let cap = if interval_ms > MONITOR_BACKOFF_CAP_MS {
        interval_ms
    } else {
        MONITOR_BACKOFF_CAP_MS as int
    };
    let grown = interval_ms * doubling(shift);
    if grown < cap {
        grown
    } else {
        cap
    }
}

pub fn monitor_backoff(interval_ms: u64, consecutive_failures: u32) -> (ms: u64)
    ensures
        ms == backoff_ms(interval_ms as int, consecutive_failures as int),
{
    let shift: u32 = if consecutive_failures == 0 {
        0
    } else if consecutive_failures - 1 > 3 {
        3
    } else {
        consecutive_failures - 1
    };
    let cap = if interval_ms > MONITOR_BACKOFF_CAP_MS {
        interval_ms
    } else {
        MONITOR_BACKOFF_CAP_MS
    };
    let factor: u64 = if shift == 0 {
        1
    } else if shift == 1 {
        2
    } else if shift == 2 {
        4
    } else {
        8
    };
    assert(interval_ms as int * factor as int <= u64::MAX as int * 8) by (nonlinear_arith)
        requires
            factor <= 8,
            interval_ms <= u64::MAX,
    ;
    let grown: u128 = interval_ms as u128 * factor as u128;
    if grown < cap as u128 {
        grown as u64
    } else {
        cap
    }
}

/// Only the first three failures in a row and the final one are reported.
pub open spec fn emits_monitor_error(consecutive_failures: int) -> bool {
    consecutive_failures <= 3 || consecutive_failures == MONITOR_MAX_FAILURES
}

pub fn should_emit_monitor_error(consecutive_failures: u32) -> (emit: bool)
    ensures
        emit == emits_monitor_error(consecutive_failures as int),
{
    consecutive_failures <= 3 || consecutive_failures == MONITOR_MAX_FAILURES
}

/// The message reported for the `failures`-th consecutive failure.
pub open spec fn monitor_error_text(failures: int, error: ErrorModel) -> Seq<char> {
    if failures == 3 {
        "monitoring connection unstable after "@ + decimal_text(failures)
            + " consecutive failures: "@ + error_text(error)
    } else if failures == 5 {
        "monitoring stopped after 5 consecutive failures"@
    } else {
        error_text(error)
    }
}

pub fn monitor_error_message(consecutive_failures: u32, error: &AppError) -> (s: String)
    ensures
        s@ == monitor_error_text(consecutive_failures as int, error@),
{
    if consecutive_failures == 3 {
        let mut s = String::from_str("monitoring connection unstable after ");
        let count = natural_decimal(consecutive_failures as u64);
        s.append(count.as_str());
        s.append(" consecutive failures: ");
        let detail = error.message();
        s.append(detail.as_str());
        s
    } else if consecutive_failures == 5 {
        String::from_str("monitoring stopped after 5 consecutive failures")
    } else {
        error.message()
    }
}

/// What the monitoring loop does after a reading attempt.
#[derive(Debug)]
pub struct MonitorPlan {
    /// An error event to emit (scope "monitoring").
    pub notice: Option<String>,
    /// Whether to emit the reading.
    pub publish: bool,
    /// Whether to disconnect, announce the disconnection and stop.
    pub stop: bool,
    /// How long to wait before the next attempt.
    pub wait_ms: u64,
}

pub struct MonitorModel {
    pub failures: int,
    pub interval_ms: int,
}

/// The monitoring loop's memory: the interval and the failures in a row.
pub struct MonitorLoop {
    failures: u32,
    interval_ms: u64,
}

impl View for MonitorLoop {
    type V = MonitorModel;

    closed spec fn view(&self) -> MonitorModel {
        MonitorModel { failures: self.failures as int, interval_ms: self.interval_ms as int }
    }
}

impl MonitorLoop {
    pub closed spec fn wf(&self) -> bool {
        self.failures < MONITOR_MAX_FAILURES
    }

    /// Starts monitoring every `interval_ms`, never faster than the
    /// refresh limit.
    pub fn new(interval_ms: u32) -> (m: MonitorLoop)
        ensures
            m.wf(),
            m@.failures == 0,
            m@.interval_ms == if interval_ms < 200 {
                200
            } else {
                interval_ms as int
            },
    {
        let min_interval = limits().refresh_interval_min_ms;
        let interval = if interval_ms < min_interval {
            min_interval
        } else {
            interval_ms
        };
        MonitorLoop { failures: 0, interval_ms: interval as u64 }
    }

    pub fn interval_ms(&self) -> (ms: u64)
        ensures
            ms == self@.interval_ms,
    {
        self.interval_ms
    }

    /// A reading arrived: announce the recovery if readings had failed,
    /// publish it and wait one interval.
    pub fn on_success(&mut self) -> (plan: MonitorPlan)
        requires
            old(self).wf(),
        ensures
            final(self).wf(),
            final(self)@ == (MonitorModel { failures: 0, ..old(self)@ }),
            match plan.notice {
                Some(n) => old(self)@.failures > 0 && n@ == "monitoring recovered"@,
                None => old(self)@.failures == 0,
            },
            plan.publish,
            !plan.stop,
            plan.wait_ms == old(self)@.interval_ms,
    {
        let notice = if self.failures > 0 {
            Some(String::from_str("monitoring recovered"))
        } else {
            None
        };
        self.failures = 0;
        MonitorPlan { notice, publish: true, stop: false, wait_ms: self.interval_ms }
    }

    /// A reading failed. A device busy with a write transaction is not a
    /// link failure: the loop just waits for the next interval. Otherwise
    /// the failure is counted, reported if it is among the reported ones,
    /// and after `MONITOR_MAX_FAILURES` in a row monitoring stops; before
    /// that it backs off.
    pub fn on_failure(&mut self, error: &AppError) -> (plan: MonitorPlan)
        requires
            old(self).wf(),
        ensures
            final(self).wf() || plan.stop,
            !plan.publish,
            error@ is Busy ==> {
                &&& final(self)@ == old(self)@
                &&& plan.notice is None
                &&& !plan.stop
                &&& plan.wait_ms == old(self)@.interval_ms
            },
            !(error@ is Busy) ==> {
                let failures = old(self)@.failures + 1;
                &&& final(self)@ == (MonitorModel { failures, ..old(self)@ })
                &&& match plan.notice {
                    Some(n) => emits_monitor_error(failures) && n@ == monitor_error_text(
                        failures,
                        error@,
                    ),
                    None => !emits_monitor_error(failures),
                }
                &&& plan.stop == (failures >= MONITOR_MAX_FAILURES)
                &&& !plan.stop ==> plan.wait_ms == backoff_ms(old(self)@.interval_ms, failures)
                &&& plan.stop ==> plan.wait_ms == 0
            },
    {
        if let AppError::Busy = error {
            return MonitorPlan { notice: None, publish: false, stop: false, wait_ms: self.interval_ms };
        }
        self.failures = self.failures + 1;
        let notice = if should_emit_monitor_error(self.failures) {
            Some(monitor_error_message(self.failures, error))
        } else {
            None
        };
        let stop = self.failures >= MONITOR_MAX_FAILURES;
        let wait_ms = if stop {
            0
        } else {
            monitor_backoff(self.interval_ms, self.failures)
        };
        MonitorPlan { notice, publish: false, stop, wait_ms }
    }
}

} // verus!

verus! {

/// The backoff never waits less than the interval nor more than the larger
/// of the interval and thirty seconds, and it never shrinks as failures
/// accumulate.
pub proof fn law_backoff_is_bounded_and_grows(interval_ms: int, failures: int)
    requires
        interval_ms >= 0,
    ensures
        interval_ms <= backoff_ms(interval_ms, failures) || interval_ms > MONITOR_BACKOFF_CAP_MS,
        backoff_ms(interval_ms, failures) <= if interval_ms > MONITOR_BACKOFF_CAP_MS {
            interval_ms
        } else {
            MONITOR_BACKOFF_CAP_MS as int
        },
        backoff_ms(interval_ms, failures) <= backoff_ms(interval_ms, failures + 1),
{
    assert(interval_ms * 1 <= interval_ms * 2 <= interval_ms * 4 <= interval_ms * 8) by (nonlinear_arith)
        requires
            interval_ms >= 0,
    ;
}

/// Monitoring gives up exactly at the fifth failure in a row, and a reading
/// in between starts the count again.
pub proof fn law_monitoring_stops_at_fifth_failure(m: MonitorModel)
    requires
        0 <= m.failures < MONITOR_MAX_FAILURES,
    ensures
        (m.failures + 1 >= MONITOR_MAX_FAILURES) <==> m.failures == 4,
        emits_monitor_error(MONITOR_MAX_FAILURES as int),
        !emits_monitor_error(4),
{
}

} // verus!
