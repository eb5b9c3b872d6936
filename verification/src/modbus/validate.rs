//! The limits every value sent to the controller is checked against.
use vstd::prelude::*;
use crate::error::{AppError, ErrorModel};
use crate::text::{decimal_text, natural_decimal};

verus! {

pub const SLAVE_ADDR_MIN: u8 = 1;

pub const SLAVE_ADDR_MAX: u8 = 80;

pub const SEGMENT_MAX_COUNT: usize = 50;

pub const SEGMENT_MINUTES_MAX: i32 = 65535;

/// The single source of the tool's limits. Decimal limits are held in tenths.
#[derive(Debug, Clone, Copy, PartialEq, Eq, Structural)]
pub struct ValidationLimits {
    pub temp_min: i64,
    pub temp_max: i64,
    pub pid_p_max_tenths: u32,
    pub pid_i_max: u32,
    pub pid_d_max_tenths: u32,
    pub segment_max_count: usize,
    pub segment_minutes_max: i32,
    pub slave_addr_min: u8,
    pub slave_addr_max: u8,
    pub refresh_interval_min_ms: u32,
}

pub open spec fn tool_limits() -> ValidationLimits {
    ValidationLimits {
        temp_min: -200i64,
        temp_max: 1800,
        pid_p_max_tenths: 99999,
        pid_i_max: 9999,
        pid_d_max_tenths: 9999,
        segment_max_count: SEGMENT_MAX_COUNT,
        segment_minutes_max: SEGMENT_MINUTES_MAX,
        slave_addr_min: SLAVE_ADDR_MIN,
        slave_addr_max: SLAVE_ADDR_MAX,
        refresh_interval_min_ms: 200,
    }
}

impl Default for ValidationLimits {
    fn default() -> (l: Self)
        ensures
            l == tool_limits(),
    {
        ValidationLimits {
            temp_min: -200,
            temp_max: 1800,
            pid_p_max_tenths: 99999,
            pid_i_max: 9999,
            pid_d_max_tenths: 9999,
            segment_max_count: SEGMENT_MAX_COUNT,
            segment_minutes_max: SEGMENT_MINUTES_MAX,
            slave_addr_min: SLAVE_ADDR_MIN,
            slave_addr_max: SLAVE_ADDR_MAX,
            refresh_interval_min_ms: 200,
        }
    }
}

pub fn limits() -> (l: ValidationLimits)
    ensures
        l == tool_limits(),
{
    ValidationLimits::default()
}

pub fn validate_slave_addr(value: u8) -> (r: Result<(), AppError>)
    ensures
        r is Ok <==> SLAVE_ADDR_MIN <= value <= SLAVE_ADDR_MAX,
        r matches Err(e) ==> e@ == (ErrorModel::OutOfRange {
            label: "slave address"@,
            value: value as int,
            min: SLAVE_ADDR_MIN as int,
            max: SLAVE_ADDR_MAX as int,
        }),
{
    let limits = limits();
    if value < limits.slave_addr_min || value > limits.slave_addr_max {
        Err(
            AppError::out_of_range(
                "slave address",
                value as i64,
                limits.slave_addr_min as i64,
                limits.slave_addr_max as i64,
            ),
        )
    } else {
        Ok(())
    }
}

/// What the curve check needs of one segment: whether its temperature passed
/// the temperature check, and its duration in minutes.
#[derive(Debug, Clone, Copy, PartialEq, Eq, Structural)]
pub struct SegmentDraft {
    pub temperature_valid: bool,
    pub minutes: i32,
}

/// The first reason a curve is refused.
#[derive(Debug, Clone, Copy, PartialEq, Eq, Structural)]
pub enum CurveFault {
    Empty,
    TooManySegments { count: usize },
    Temperature { index: usize },
    Minutes { index: usize, minutes: i32 },
}

pub open spec fn minutes_valid(minutes: i32) -> bool {
    0 <= minutes <= SEGMENT_MINUTES_MAX
}

pub open spec fn segment_valid(s: SegmentDraft) -> bool {
    s.temperature_valid && minutes_valid(s.minutes)
}

/// The fault of segment `s` at `index`, temperature first.
pub open spec fn segment_fault(s: SegmentDraft, index: usize) -> CurveFault {
    if !s.temperature_valid {
        CurveFault::Temperature { index }
    } else {
        CurveFault::Minutes { index, minutes: s.minutes }
    }
}

/// The reason a curve is refused, or `None` when it is accepted: it must hold
/// 1 to `SEGMENT_MAX_COUNT` segments, and the first invalid segment decides.
pub open spec fn curve_fault(segments: Seq<SegmentDraft>) -> Option<CurveFault> {
    if segments.len() == 0 {
        Some(CurveFault::Empty)
    } else if segments.len() > SEGMENT_MAX_COUNT {
        Some(CurveFault::TooManySegments { count: segments.len() as usize })
    } else if forall|i: int| 0 <= i < segments.len() ==> segment_valid(#[trigger] segments[i]) {
        None
    } else {
        let i = choose|i: int|
            0 <= i < segments.len() && !segment_valid(#[trigger] segments[i]) && forall|j: int|
                0 <= j < i ==> segment_valid(#[trigger] segments[j]);
        Some(segment_fault(segments[i], i as usize))
    }
}

pub fn first_curve_fault(segments: &[SegmentDraft]) -> (r: Option<CurveFault>)
    ensures
        r == curve_fault(segments@),
{
    let limits = limits();
    if segments.len() == 0 {
        return Some(CurveFault::Empty);
    }
    if segments.len() > limits.segment_max_count {
        return Some(CurveFault::TooManySegments { count: segments.len() });
    }
    let mut index: usize = 0;
    while index < segments.len()
        invariant
            0 <= index <= segments@.len() <= SEGMENT_MAX_COUNT,
            limits == tool_limits(),
            forall|j: int| 0 <= j < index ==> segment_valid(#[trigger] segments@[j]),
        decreases segments@.len() - index,
    {
        let segment = segments[index];
        if !segment.temperature_valid {
            proof {
                lemma_first_fault_is_chosen(segments@, index as int);
            }
            return Some(CurveFault::Temperature { index });
        }
        if segment.minutes < 0 || segment.minutes > limits.segment_minutes_max {
            proof {
                lemma_first_fault_is_chosen(segments@, index as int);
            }
            return Some(CurveFault::Minutes { index, minutes: segment.minutes });
        }
        index = index + 1;
    }
    None
}

/// `"segment {index}{tail}"`.
pub open spec fn segment_label(index: int, tail: Seq<char>) -> Seq<char> {
    "segment "@ + decimal_text(index) + tail
}

pub fn segment_label_text(index: usize, tail: &str) -> (s: String)
    ensures
        s@ == segment_label(index as int, tail@),
{
    let mut s = String::from_str("segment ");
    let digits = natural_decimal(index as u64);
    s.append(digits.as_str());
    s.append(tail);
    s
}

/// The count reported for a curve with too many segments (a slice length,
/// so in practice never clamped).
pub open spec fn reported_count(count: usize) -> int {
    if count <= i64::MAX {
        count as int
    } else {
        i64::MAX as int
    }
}

/// The error a refused curve is reported with. A temperature fault has
/// none here: its value is the floating-point temperature, which only the
/// caller's check holds; its label is `segment_label(index, " temperature")`.
pub open spec fn curve_fault_report(fault: CurveFault) -> Option<ErrorModel> {
    match fault {
        CurveFault::Empty => Some(ErrorModel::InvalidData("curve must contain at least one segment"@)),
        CurveFault::TooManySegments { count } => Some(
            ErrorModel::OutOfRange {
                label: "segment count"@,
                value: reported_count(count),
                min: 1,
                max: SEGMENT_MAX_COUNT as int,
            },
        ),
        CurveFault::Temperature { .. } => None,
        CurveFault::Minutes { index, minutes } => Some(
            ErrorModel::OutOfRange {
                label: segment_label(index as int, " minutes"@),
                value: minutes as int,
                min: 0,
                max: SEGMENT_MINUTES_MAX as int,
            },
        ),
    }
}

pub fn curve_fault_error(fault: CurveFault) -> (e: Option<AppError>)
    ensures
        match (e, curve_fault_report(fault)) {
            (Some(a), Some(b)) => a@ == b,
            (None, None) => true,
            _ => false,
        },
{
    match fault {
        CurveFault::Empty => Some(
            AppError::InvalidData(String::from_str("curve must contain at least one segment")),
        ),
        CurveFault::TooManySegments { count } => {
            let value: i64 = if count as u64 <= i64::MAX as u64 {
                count as i64
            } else {
                i64::MAX
            };
            Some(AppError::out_of_range("segment count", value, 1, SEGMENT_MAX_COUNT as i64))
        },
        CurveFault::Temperature { .. } => None,
        CurveFault::Minutes { index, minutes } => Some(
            AppError::OutOfRange {
                label: segment_label_text(index, " minutes"),
                value: minutes as i64,
                min: 0,
                max: SEGMENT_MINUTES_MAX as i64,
            },
        ),
    }
}

proof fn lemma_first_fault_is_chosen(segments: Seq<SegmentDraft>, k: int)
    requires
        0 <= k < segments.len(),
        !segment_valid(segments[k]),
        forall|j: int| 0 <= j < k ==> segment_valid(#[trigger] segments[j]),
    ensures
        (choose|i: int|
            0 <= i < segments.len() && !segment_valid(#[trigger] segments[i]) && forall|j: int|
                0 <= j < i ==> segment_valid(#[trigger] segments[j])) == k,
{
    let i = choose|i: int|
        0 <= i < segments.len() && !segment_valid(#[trigger] segments[i]) && forall|j: int|
            0 <= j < i ==> segment_valid(#[trigger] segments[j]);
    assert(0 <= i < segments.len() && !segment_valid(segments[i]) && forall|j: int|
        0 <= j < i ==> segment_valid(#[trigger] segments[j]));
    if i < k {
        assert(segment_valid(segments[i]));
    }
    if k < i {
        assert(segment_valid(segments[k]));
    }
}

} // verus!
