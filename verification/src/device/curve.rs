//! Curve transfers: reading the program curve (segment count, then each
//! segment with a throttle pause), and the curve download transaction
//! (backup, the count, each segment with its read-back, final verification,
//! and rollback to the backup on failure).
use vstd::prelude::*;
use crate::device::bus::{
    BusOp, BusReply, BusReplyModel, PlanModel, PlanRunner, PlanStep, Step, StepModel, answers,
    plan_launch, plan_op, plan_view, plan_wf, step_failure, step_passes,
};
use crate::error::{AppError, ErrorModel, RollbackModel, RollbackOutcome, WriteOperation, error_text};
use crate::modbus::convert::{
    ScaleConfig, WRITABLE_MAX, WRITABLE_MIN, encode_i16, is_invalid_marker, is_writable,
    parameter_from_raw, reencode_temperature, register_of, round_div, signed_of, temperature_in_range,
    temperature_valid,
};
use crate::modbus::registers;
use crate::modbus::validate::SEGMENT_MAX_COUNT;
use crate::text::{decimal_text, integer_decimal};

verus! {

/// The most segments whose registers fit in the address space.
pub const MAX_CURVE_SLOTS: usize = 32728;

/// One curve segment as the device stores it: the signed temperature
/// register (read with the device scale) and the duration in minutes.
#[derive(Debug, Clone, Copy, PartialEq, Eq, Structural)]
pub struct CurvePoint {
    pub temperature: i16,
    pub minutes: i16,
}

/// The first register of segment `index`.
pub open spec fn segment_base(index: int) -> int {
    registers::SP_START + 2 * index
}

/// `"curve segment {index}{tail}"`.
pub open spec fn segment_text(index: int, tail: Seq<char>) -> Seq<char> {
    "curve segment "@ + decimal_text(index) + tail
}

fn segment_message(index: usize, tail: &str) -> (s: String)
    requires
        index <= i64::MAX,
    ensures
        s@ == segment_text(index as int, tail@),
{
    let mut s = String::from_str("curve segment ");
    let digits = integer_decimal(index as i64);
    s.append(digits.as_str());
    s.append(tail);
    s
}

// ---------------------------------------------------------------------------
// Reading the curve
// ---------------------------------------------------------------------------

pub enum ReadPhase {
    /// Waiting for the segment count (PNO).
    Count,
    /// Waiting for the registers of segment `index`.
    Segment { index: int },
    /// Waiting out the throttle after segment `index`; `failure` is the error
    /// the read ends with, if any.
    Throttle { index: int, failure: Option<ErrorModel> },
    Done,
}

pub struct CurveReadModel {
    pub phase: ReadPhase,
    pub scale: ScaleConfig,
    pub count: int,
    pub points: Seq<CurvePoint>,
}

/// The segment count a PNO reply holds, if it holds a valid parameter.
pub open spec fn pno_of(values: Seq<u16>) -> Option<int> {
    if values.len() > 0 && !is_invalid_marker(values[0]) {
        Some(signed_of(values[0]))
    } else {
        None
    }
}

/// What a valid parameter register at position `k` of a reply holds.
pub open spec fn register_parameter(values: Seq<u16>, k: int) -> Option<int> {
    if values.len() > k && !is_invalid_marker(values[k]) {
        Some(signed_of(values[k]))
    } else {
        None
    }
}

/// The read of segment `index`'s registers, for the curve read.
pub open spec fn segment_read(index: int) -> BusOp {
    BusOp::Read { addr: segment_base(index) as u16, count: 2 }
}

/// The protocol of a curve read: next state and step after `reply`.
pub open spec fn read_next(m: CurveReadModel, reply: BusReplyModel) -> (
    CurveReadModel,
    StepModel<Seq<CurvePoint>>,
) {
    let done = CurveReadModel { phase: ReadPhase::Done, points: Seq::empty(), ..m };
    match m.phase {
        ReadPhase::Count => match reply {
            BusReplyModel::Read(Err(e)) => (done, StepModel::Finish(Err(e))),
            BusReplyModel::Read(Ok(values)) => match pno_of(values) {
                None => (
                    done,
                    StepModel::Finish(Err(ErrorModel::InvalidData("PNO has no valid data"@))),
                ),
                Some(pno) => if pno == 0 {
                    (done, StepModel::Finish(Ok(Seq::empty())))
                } else if pno < 0 {
                    (done, StepModel::Finish(Err(ErrorModel::InvalidData("PNO is negative"@))))
                } else if pno > SEGMENT_MAX_COUNT {
                    (
                        done,
                        StepModel::Finish(
                            Err(
                                ErrorModel::OutOfRange {
                                    label: "curve segment count"@,
                                    value: pno,
                                    min: 0,
                                    max: SEGMENT_MAX_COUNT as int,
                                },
                            ),
                        ),
                    )
                } else {
                    (
                        CurveReadModel {
                            phase: ReadPhase::Segment { index: 0 },
                            count: pno,
                            points: Seq::empty(),
                            ..m
                        },
                        StepModel::Issue(segment_read(0)),
                    )
                },
            },
            _ => (done, StepModel::Finish(Err(ErrorModel::Timeout))),
        },
        ReadPhase::Segment { index } => {
            let failure = match reply {
                BusReplyModel::Read(Err(e)) => Some(e),
                BusReplyModel::Read(Ok(values)) => match (
                    register_parameter(values, 0),
                    register_parameter(values, 1),
                ) {
                    (Some(t), Some(minutes)) => if minutes < 0 {
                        Some(
                            ErrorModel::InvalidData(
                                segment_text(index, " minutes is negative"@),
                            ),
                        )
                    } else if !temperature_valid(t, m.scale) {
                        Some(
                            ErrorModel::InvalidData(
                                segment_text(index, " temperature is out of range"@),
                            ),
                        )
                    } else {
                        None
                    },
                    _ => Some(
                        ErrorModel::InvalidData(segment_text(index, " contains invalid data"@)),
                    ),
                },
                _ => Some(ErrorModel::Timeout),
            };
            let points = match reply {
                BusReplyModel::Read(Ok(values)) => if failure is None {
                    m.points.push(
                        CurvePoint {
                            temperature: signed_of(values[0]) as i16,
                            minutes: signed_of(values[1]) as i16,
                        },
                    )
                } else {
                    m.points
                },
                _ => m.points,
            };
            (
                CurveReadModel { phase: ReadPhase::Throttle { index, failure }, points, ..m },
                StepModel::Issue(BusOp::Pause),
            )
        },
        ReadPhase::Throttle { index, failure } => match failure {
            Some(e) => (done, StepModel::Finish(Err(e))),
            None => if index + 1 == m.count {
                (done, StepModel::Finish(Ok(m.points)))
            } else {
                (
                    CurveReadModel { phase: ReadPhase::Segment { index: index + 1 }, ..m },
                    StepModel::Issue(segment_read(index + 1)),
                )
            },
        },
        ReadPhase::Done => (done, StepModel::Finish(Err(ErrorModel::Timeout))),
    }
}

/// The operation a curve read in state `m` waits on.
pub open spec fn read_pending(m: CurveReadModel) -> BusOp {
    match m.phase {
        ReadPhase::Count => BusOp::Read { addr: registers::PNO, count: 1 },
        ReadPhase::Segment { index } => segment_read(index),
        _ => BusOp::Pause,
    }
}

/// A decoded point is one the read accepts.
pub open spec fn point_valid(p: CurvePoint, scale: ScaleConfig) -> bool {
    p.minutes >= 0 && temperature_valid(p.temperature as int, scale)
}

enum ReaderStage {
    Count,
    Segment,
    Throttle(Option<AppError>),
    Done,
}

/// A curve read in progress.
pub struct CurveReader {
    scale: ScaleConfig,
    count: usize,
    index: usize,
    points: Vec<CurvePoint>,
    stage: ReaderStage,
}

impl View for CurveReader {
    type V = CurveReadModel;

    closed spec fn view(&self) -> CurveReadModel {
        CurveReadModel {
            phase: match self.stage {
                ReaderStage::Count => ReadPhase::Count,
                ReaderStage::Segment => ReadPhase::Segment { index: self.index as int },
                ReaderStage::Throttle(failure) => ReadPhase::Throttle {
                    index: self.index as int,
                    failure: match failure {
                        Some(e) => Some(e@),
                        None => None,
                    },
                },
                ReaderStage::Done => ReadPhase::Done,
            },
            scale: self.scale,
            count: self.count as int,
            points: self.points@,
        }
    }
}

impl CurveReader {
    pub closed spec fn wf(&self) -> bool {
        &&& self.count <= SEGMENT_MAX_COUNT
        &&& match self.stage {
            ReaderStage::Segment => self.index < self.count && self.points@.len() == self.index,
            ReaderStage::Throttle(failure) => {
                &&& self.index < self.count
                &&& failure is None ==> self.points@.len() == self.index + 1
            },
            _ => true,
        }
        &&& forall|k: int|
            0 <= k < self.points@.len() ==> point_valid(#[trigger] self.points@[k], self.scale)
    }

    pub open spec fn active(&self) -> bool {
        !(self@.phase is Done)
    }

    /// Starts reading the curve stored on the device; the first step reads
    /// the segment count.
    pub fn start(scale: ScaleConfig) -> (res: (CurveReader, Step<Vec<CurvePoint>>))
        ensures
            res.0.wf(),
            res.0@ == (CurveReadModel {
                phase: ReadPhase::Count,
                scale,
                count: 0,
                points: Seq::empty(),
            }),
            res.1@ == StepModel::<Seq<CurvePoint>>::Issue(
                BusOp::Read { addr: registers::PNO, count: 1 },
            ),
    {
        (
            CurveReader { scale, count: 0, index: 0, points: Vec::new(), stage: ReaderStage::Count },
            Step::Issue(BusOp::Read { addr: registers::PNO, count: 1 }),
        )
    }

    /// Hands the reply to the pending operation to the read.
    pub fn resume(&mut self, reply: BusReply) -> (step: Step<Vec<CurvePoint>>)
        requires
            old(self).wf(),
            old(self).active(),
            answers(read_pending(old(self)@), reply@),
        ensures
            final(self).wf(),
            (final(self)@, step@) == read_next(old(self)@, reply@),
            step matches Step::Finish(Ok(points)) ==> forall|k: int|
                0 <= k < points@.len() ==> point_valid(#[trigger] points@[k], old(self)@.scale),
            step matches Step::Finish(Ok(points)) ==> points@.len() <= SEGMENT_MAX_COUNT,
    {
        let mut stage = ReaderStage::Done;
        std::mem::swap(&mut stage, &mut self.stage);
        let step = match stage {
            ReaderStage::Count => {
                match reply {
                    BusReply::Read(Err(e)) => Step::Finish(Err(e)),
                    BusReply::Read(Ok(values)) => {
                        let pno = if values.len() > 0 {
                            parameter_from_raw(values[0])
                        } else {
                            None
                        };
                        match pno {
                            None => Step::Finish(
                                Err(AppError::InvalidData(String::from_str("PNO has no valid data"))),
                            ),
                            Some(pno) => {
                                if pno == 0 {
                                    Step::Finish(Ok(Vec::new()))
                                } else if pno < 0 {
                                    Step::Finish(
                                        Err(AppError::InvalidData(String::from_str("PNO is negative"))),
                                    )
                                } else if pno as usize > SEGMENT_MAX_COUNT {
                                    Step::Finish(
                                        Err(
                                            AppError::out_of_range(
                                                "curve segment count",
                                                pno as i64,
                                                0,
                                                SEGMENT_MAX_COUNT as i64,
                                            ),
                                        ),
                                    )
                                } else {
                                    self.count = pno as usize;
                                    self.index = 0;
                                    self.points = Vec::new();
                                    self.stage = ReaderStage::Segment;
                                    Step::Issue(BusOp::Read { addr: registers::SP_START, count: 2 })
                                }
                            },
                        }
                    },
                    _ => Step::Finish(Err(AppError::Timeout)),
                }
            },
            ReaderStage::Segment => {
                let failure = match reply {
                    BusReply::Read(Err(e)) => Some(e),
                    BusReply::Read(Ok(values)) => {
                        let t = if values.len() > 0 {
                            parameter_from_raw(values[0])
                        } else {
                            None
                        };
                        let minutes = if values.len() > 1 {
                            parameter_from_raw(values[1])
                        } else {
                            None
                        };
                        match (t, minutes) {
                            (Some(t), Some(minutes)) => {
                                if minutes < 0 {
                                    Some(
                                        AppError::InvalidData(
                                            segment_message(self.index, " minutes is negative"),
                                        ),
                                    )
                                } else if !temperature_in_range(t, self.scale) {
                                    Some(
                                        AppError::InvalidData(
                                            segment_message(
                                                self.index,
                                                " temperature is out of range",
                                            ),
                                        ),
                                    )
                                } else {
                                    self.points.push(CurvePoint { temperature: t, minutes });
                                    None
                                }
                            },
                            _ => Some(
                                AppError::InvalidData(
                                    segment_message(self.index, " contains invalid data"),
                                ),
                            ),
                        }
                    },
                    _ => Some(AppError::Timeout),
                };
                self.stage = ReaderStage::Throttle(failure);
                Step::Issue(BusOp::Pause)
            },
            ReaderStage::Throttle(failure) => {
                match failure {
                    Some(e) => Step::Finish(Err(e)),
                    None => {
                        if self.index + 1 == self.count {
                            let mut points = Vec::new();
                            std::mem::swap(&mut points, &mut self.points);
                            Step::Finish(Ok(points))
                        } else {
                            self.index = self.index + 1;
                            self.stage = ReaderStage::Segment;
                            Step::Issue(
                                BusOp::Read {
                                    addr: registers::SP_START + (self.index as u16) * 2,
                                    count: 2,
                                },
                            )
                        }
                    },
                }
            },
            ReaderStage::Done => Step::Finish(Err(AppError::Timeout)),
        };
        if let Step::Finish(_) = &step {
            self.points = Vec::new();
        }
        step
    }
}

} // verus!

verus! {

// ---------------------------------------------------------------------------
// Writing the curve
// ---------------------------------------------------------------------------

/// Write segment `index`, wait the throttle, and read it back.
pub open spec fn segment_write_steps(index: int, seg: (u16, u16)) -> Seq<PlanModel> {
    seq![
        PlanModel::Write { addr: segment_base(index) as u16, value: seg.0 },
        PlanModel::Write { addr: (segment_base(index) + 1) as u16, value: seg.1 },
        PlanModel::Pause,
        PlanModel::Verify {
            addr: segment_base(index) as u16,
            expected: seq![seg.0, seg.1],
            whole: false,
            mismatch: segment_text(index, " read-back mismatch"@),
        },
    ]
}

/// The writes of every segment, in order.
pub open spec fn segment_writes(segs: Seq<(u16, u16)>) -> Seq<PlanModel>
    decreases segs.len(),
{
    if segs.len() == 0 {
        Seq::empty()
    } else {
        segment_writes(segs.drop_last()) + segment_write_steps(segs.len() - 1, segs.last())
    }
}

/// Write the segment count and read it back; a count the register cannot
/// hold ends the download before anything is written.
pub open spec fn pno_steps(count: int) -> Seq<PlanModel> {
    if is_writable(count) {
        seq![
            PlanModel::Write { addr: registers::PNO, value: count as u16 },
            PlanModel::Verify {
                addr: registers::PNO,
                expected: seq![count as u16],
                whole: false,
                mismatch: "curve PNO read-back mismatch"@,
            },
        ]
    } else {
        seq![
            PlanModel::Abort(
                ErrorModel::OutOfRange {
                    label: "Pno"@,
                    value: count,
                    min: WRITABLE_MIN as int,
                    max: WRITABLE_MAX as int,
                },
            ),
        ]
    }
}

/// The final read of segment `index` after the count is committed.
pub open spec fn final_check(index: int, seg: (u16, u16)) -> PlanModel {
    PlanModel::Verify {
        addr: segment_base(index) as u16,
        expected: seq![seg.0, seg.1],
        whole: false,
        mismatch: segment_text(index, " final verification mismatch"@),
    }
}

pub open spec fn final_checks(segs: Seq<(u16, u16)>) -> Seq<PlanModel>
    decreases segs.len(),
{
    if segs.len() == 0 {
        Seq::empty()
    } else {
        final_checks(segs.drop_last()).push(final_check(segs.len() - 1, segs.last()))
    }
}

/// Everything that puts the curve `segs` (temperature and minutes registers
/// of each segment) on the device: the count first, then each segment with
/// its read-back, then a final read-back of every segment.
pub open spec fn curve_plan(segs: Seq<(u16, u16)>) -> Seq<PlanModel> {
    pno_steps(segs.len() as int) + segment_writes(segs) + final_checks(segs)
}

pub proof fn lemma_segment_writes_len(segs: Seq<(u16, u16)>)
    ensures
        segment_writes(segs).len() == 4 * segs.len(),
    decreases segs.len(),
{
    if segs.len() > 0 {
        lemma_segment_writes_len(segs.drop_last());
    }
}

pub proof fn lemma_final_checks_len(segs: Seq<(u16, u16)>)
    ensures
        final_checks(segs).len() == segs.len(),
    decreases segs.len(),
{
    if segs.len() > 0 {
        lemma_final_checks_len(segs.drop_last());
    }
}

/// Steps `4 * index .. 4 * index + 4` write and read back segment `index`.
pub proof fn lemma_segment_writes_index(segs: Seq<(u16, u16)>, index: int, k: int)
    requires
        0 <= index < segs.len(),
        0 <= k < 4,
    ensures
        segment_writes(segs)[4 * index + k] == segment_write_steps(index, segs[index])[k],
    decreases segs.len(),
{
    lemma_segment_writes_len(segs);
    lemma_segment_writes_len(segs.drop_last());
    let a = segment_writes(segs.drop_last());
    let b = segment_write_steps(segs.len() - 1, segs.last());
    if index < segs.len() - 1 {
        lemma_segment_writes_index(segs.drop_last(), index, k);
        assert((a + b)[4 * index + k] == a[4 * index + k]);
    } else {
        assert((a + b)[4 * index + k] == b[k]);
    }
}

/// Step `index` of the final checks reads back segment `index`.
pub proof fn lemma_final_checks_index(segs: Seq<(u16, u16)>, index: int)
    requires
        0 <= index < segs.len(),
    ensures
        final_checks(segs)[index] == final_check(index, segs[index]),
    decreases segs.len(),
{
    lemma_final_checks_len(segs.drop_last());
    if index < segs.len() - 1 {
        lemma_final_checks_index(segs.drop_last(), index);
    }
}

/// Every verification of a curve plan reads one or two registers.
proof fn lemma_curve_plan_wf(segs: Seq<(u16, u16)>)
    ensures
        plan_wf(curve_plan(segs)),
    decreases segs.len(),
{
    lemma_segment_writes_wf(segs);
    lemma_final_checks_wf(segs);
    let plan = curve_plan(segs);
    let a = pno_steps(segs.len() as int);
    let b = segment_writes(segs);
    let c = final_checks(segs);
    assert forall|k: int| 0 <= k < plan.len() implies match #[trigger] plan[k] {
        PlanModel::Verify { expected, .. } => 1 <= expected.len() <= u16::MAX,
        _ => true,
    } by {
        if k < a.len() {
            assert(plan[k] == a[k]);
        } else if k < a.len() + b.len() {
            assert(plan[k] == b[k - a.len()]);
        } else {
            assert(plan[k] == c[k - a.len() - b.len()]);
        }
    }
}

proof fn lemma_segment_writes_wf(segs: Seq<(u16, u16)>)
    ensures
        plan_wf(segment_writes(segs)),
    decreases segs.len(),
{
    if segs.len() > 0 {
        lemma_segment_writes_wf(segs.drop_last());
        let a = segment_writes(segs.drop_last());
        let b = segment_write_steps(segs.len() - 1, segs.last());
        assert forall|k: int| 0 <= k < a.len() + b.len() implies match #[trigger] (a + b)[k] {
            PlanModel::Verify { expected, .. } => 1 <= expected.len() <= u16::MAX,
            _ => true,
        } by {
            if k < a.len() {
                assert((a + b)[k] == a[k]);
            } else {
                assert((a + b)[k] == b[k - a.len()]);
            }
        }
    }
}

proof fn lemma_final_checks_wf(segs: Seq<(u16, u16)>)
    ensures
        plan_wf(final_checks(segs)),
    decreases segs.len(),
{
    if segs.len() > 0 {
        lemma_final_checks_wf(segs.drop_last());
        let a = final_checks(segs.drop_last());
        let full = a.push(final_check(segs.len() - 1, segs.last()));
        assert forall|k: int| 0 <= k < full.len() implies match #[trigger] full[k] {
            PlanModel::Verify { expected, .. } => 1 <= expected.len() <= u16::MAX,
            _ => true,
        } by {
            if k < a.len() {
                assert(full[k] == a[k]);
            }
        }
    }
}

/// Builds the plan that writes `segs`.
fn build_curve_plan(segs: &Vec<(u16, u16)>) -> (plan: Vec<PlanStep>)
    requires
        segs@.len() <= MAX_CURVE_SLOTS,
    ensures
        plan_view(plan@) == curve_plan(segs@),
        plan_wf(curve_plan(segs@)),
{
    let mut plan: Vec<PlanStep> = Vec::new();
    let n = segs.len();
    if n as u64 <= WRITABLE_MAX as u64 {
        plan.push(PlanStep::Write { addr: registers::PNO, value: n as u16 });
        let mut expected: Vec<u16> = Vec::new();
        expected.push(n as u16);
        plan.push(
            PlanStep::Verify {
                addr: registers::PNO,
                expected,
                whole: false,
                mismatch: String::from_str("curve PNO read-back mismatch"),
            },
        );
        assert(expected@ =~= seq![n as u16]);
    } else {
        plan.push(
            PlanStep::Abort(
                AppError::out_of_range("Pno", n as i64, WRITABLE_MIN, WRITABLE_MAX),
            ),
        );
    }
    assert(plan_view(plan@) =~= pno_steps(n as int));
    let ghost count_steps = plan_view(plan@);
    let mut i: usize = 0;
    while i < n
        invariant
            n == segs@.len() <= MAX_CURVE_SLOTS,
            0 <= i <= n,
            plan_view(plan@) == count_steps + segment_writes(segs@.take(i as int)),
        decreases n - i,
    {
        let (t, m) = segs[i];
        let base: u16 = registers::SP_START + (i as u16) * 2;
        let ghost before = plan_view(plan@);
        plan.push(PlanStep::Write { addr: base, value: t });
        plan.push(PlanStep::Write { addr: base + 1, value: m });
        plan.push(PlanStep::Pause);
        let mut expected: Vec<u16> = Vec::new();
        expected.push(t);
        expected.push(m);
        plan.push(
            PlanStep::Verify {
                addr: base,
                expected,
                whole: false,
                mismatch: segment_message(i, " read-back mismatch"),
            },
        );
        proof {
            let taken = segs@.take(i as int + 1);
            assert(taken.drop_last() =~= segs@.take(i as int));
            assert(taken.last() == segs@[i as int]);
            assert(expected@ =~= seq![t, m]);
            assert(plan_view(plan@) =~= before + segment_write_steps(i as int, segs@[i as int]));
            assert(count_steps + segment_writes(taken) =~= (count_steps + segment_writes(
                segs@.take(i as int),
            )) + segment_write_steps(i as int, segs@[i as int]));
        }
        i = i + 1;
    }
    assert(segs@.take(n as int) =~= segs@);
    let ghost prefix = plan_view(plan@);
    let mut j: usize = 0;
    while j < n
        invariant
            n == segs@.len() <= MAX_CURVE_SLOTS,
            0 <= j <= n,
            plan_view(plan@) == prefix + final_checks(segs@.take(j as int)),
        decreases n - j,
    {
        let (t, m) = segs[j];
        let base: u16 = registers::SP_START + (j as u16) * 2;
        let mut expected: Vec<u16> = Vec::new();
        expected.push(t);
        expected.push(m);
        let ghost before = plan_view(plan@);
        plan.push(
            PlanStep::Verify {
                addr: base,
                expected,
                whole: false,
                mismatch: segment_message(j, " final verification mismatch"),
            },
        );
        proof {
            let taken = segs@.take(j as int + 1);
            assert(taken.drop_last() =~= segs@.take(j as int));
            assert(expected@ =~= seq![t, m]);
            assert(plan_view(plan@) =~= before.push(final_check(j as int, segs@[j as int])));
            assert(prefix + final_checks(taken) =~= (prefix + final_checks(segs@.take(j as int))).push(final_check(j as int, segs@[j as int])));
        }
        j = j + 1;
    }
    proof {
        assert(segs@.take(n as int) =~= segs@);
        lemma_curve_plan_wf(segs@);
    }
    plan
}

} // verus!

verus! {

// ---------------------------------------------------------------------------
// The download transaction
// ---------------------------------------------------------------------------

/// The registers a backed-up point is written back as.
pub open spec fn point_registers(p: CurvePoint, scale: ScaleConfig) -> Result<(u16, u16), ErrorModel> {
    let t = round_div(p.temperature as int, scale.scale_factor as int) * scale.scale_factor;
    if !is_writable(t) {
        Err(
            ErrorModel::OutOfRange {
                label: "scaled value"@,
                value: t,
                min: WRITABLE_MIN as int,
                max: WRITABLE_MAX as int,
            },
        )
    } else if !is_writable(p.minutes as int) {
        Err(
            ErrorModel::OutOfRange {
                label: "segment minutes"@,
                value: p.minutes as int,
                min: WRITABLE_MIN as int,
                max: WRITABLE_MAX as int,
            },
        )
    } else {
        Ok((register_of(t) as u16, register_of(p.minutes as int) as u16))
    }
}

/// The registers of a backed-up curve, or the error of its first point that
/// cannot be written back.
pub open spec fn backup_registers(points: Seq<CurvePoint>, scale: ScaleConfig) -> Result<
    Seq<(u16, u16)>,
    ErrorModel,
>
    decreases points.len(),
{
    if points.len() == 0 {
        Ok(Seq::empty())
    } else {
        match backup_registers(points.drop_last(), scale) {
            Err(e) => Err(e),
            Ok(prefix) => match point_registers(points.last(), scale) {
                Err(e) => Err(e),
                Ok(pair) => Ok(prefix.push(pair)),
            },
        }
    }
}

fn encode_backup(points: &Vec<CurvePoint>, scale: ScaleConfig) -> (r: Result<Vec<(u16, u16)>, AppError>)
    requires
        forall|k: int| 0 <= k < points@.len() ==> point_valid(#[trigger] points@[k], scale),
    ensures
        match (r, backup_registers(points@, scale)) {
            (Ok(v), Ok(s)) => v@ == s,
            (Err(e), Err(s)) => e@ == s,
            _ => false,
        },
        r matches Ok(v) ==> v@.len() == points@.len(),
{
    let mut out: Vec<(u16, u16)> = Vec::new();
    let mut i: usize = 0;
    while i < points.len()
        invariant
            0 <= i <= points@.len(),
            forall|k: int| 0 <= k < points@.len() ==> point_valid(#[trigger] points@[k], scale),
            backup_registers(points@.take(i as int), scale) == Ok::<Seq<(u16, u16)>, ErrorModel>(out@),
            out@.len() == i,
        decreases points@.len() - i,
    {
        let p = points[i];
        assert(point_valid(points@[i as int], scale));
        let ghost taken = points@.take(i as int + 1);
        proof {
            assert(taken.drop_last() =~= points@.take(i as int));
            assert(taken.last() == p);
        }
        let t = match reencode_temperature(p.temperature, scale) {
            Ok(t) => t,
            Err(e) => {
                proof {
                    lemma_backup_error_propagates(points@, scale, i as int + 1);
                }
                return Err(e);
            },
        };
        let m = match encode_i16(p.minutes as i64, "segment minutes") {
            Ok(m) => m,
            Err(e) => {
                proof {
                    lemma_backup_error_propagates(points@, scale, i as int + 1);
                }
                return Err(e);
            },
        };
        out.push((t, m));
        i = i + 1;
    }
    assert(points@.take(points@.len() as int) =~= points@);
    Ok(out)
}

/// An error in the backup of a prefix is the error of the whole backup.
proof fn lemma_backup_error_propagates(points: Seq<CurvePoint>, scale: ScaleConfig, n: int)
    requires
        0 <= n <= points.len(),
        backup_registers(points.take(n), scale) is Err,
    ensures
        backup_registers(points, scale) == backup_registers(points.take(n), scale),
    decreases points.len() - n,
{
    if n < points.len() {
        let next = points.take(n + 1);
        assert(next.drop_last() =~= points.take(n));
        lemma_backup_error_propagates(points, scale, n + 1);
    } else {
        assert(points.take(n) =~= points);
    }
}

/// One step of a plan: the reply either passes the step at `pos` and the
/// plan goes on, or ends it with the step's error.
pub open spec fn plan_advance(plan: Seq<PlanModel>, pos: int, reply: BusReplyModel) -> StepModel<()> {
    if step_passes(plan[pos], reply) {
        plan_launch(plan, pos + 1)
    } else {
        StepModel::Finish(Err(step_failure(plan[pos], reply)))
    }
}

pub open spec fn curve_write_failed(cause: ErrorModel, rollback: RollbackModel) -> ErrorModel {
    ErrorModel::WriteFailed {
        operation: WriteOperation::Curve,
        cause: error_text(cause),
        rollback,
    }
}

pub enum CurvePhase {
    Backup { reader: CurveReadModel },
    Forward,
    Rollback { cause: ErrorModel },
    Done,
}

/// The state of a curve download: the segments to write, the backup of the
/// curve found on the device, and the position in the current plan.
pub struct CurveModel {
    pub phase: CurvePhase,
    pub scale: ScaleConfig,
    pub encoded: Seq<(u16, u16)>,
    pub backup: Seq<(u16, u16)>,
    pub pos: int,
}

/// The protocol of the curve download: next state and step after `reply`.
pub open spec fn curve_next(m: CurveModel, reply: BusReplyModel) -> (CurveModel, StepModel<()>) {
    let done = CurveModel { phase: CurvePhase::Done, pos: 0, ..m };
    match m.phase {
        CurvePhase::Backup { reader } => {
            let (reader2, s) = read_next(reader, reply);
            match s {
                StepModel::Issue(op) => (
                    CurveModel { phase: CurvePhase::Backup { reader: reader2 }, ..m },
                    StepModel::Issue(op),
                ),
                StepModel::Finish(Err(e)) => (done, StepModel::Finish(Err(e))),
                StepModel::Finish(Ok(points)) => match backup_registers(points, m.scale) {
                    Err(e) => (done, StepModel::Finish(Err(e))),
                    Ok(backup) => match plan_launch(curve_plan(m.encoded), 0) {
                        StepModel::Finish(Err(cause)) => (
                            CurveModel {
                                phase: CurvePhase::Rollback { cause },
                                backup,
                                pos: 0,
                                ..m
                            },
                            plan_launch(curve_plan(backup), 0),
                        ),
                        first => (
                            CurveModel { phase: CurvePhase::Forward, backup, pos: 0, ..m },
                            first,
                        ),
                    },
                },
            }
        },
        CurvePhase::Forward => match plan_advance(curve_plan(m.encoded), m.pos, reply) {
            StepModel::Issue(op) => (CurveModel { pos: m.pos + 1, ..m }, StepModel::Issue(op)),
            StepModel::Finish(Ok(())) => (done, StepModel::Finish(Ok(()))),
            StepModel::Finish(Err(cause)) => (
                CurveModel { phase: CurvePhase::Rollback { cause }, pos: 0, ..m },
                plan_launch(curve_plan(m.backup), 0),
            ),
        },
        CurvePhase::Rollback { cause } => match plan_advance(curve_plan(m.backup), m.pos, reply) {
            StepModel::Issue(op) => (CurveModel { pos: m.pos + 1, ..m }, StepModel::Issue(op)),
            StepModel::Finish(Ok(())) => (
                done,
                StepModel::Finish(Err(curve_write_failed(cause, RollbackModel::Succeeded))),
            ),
            StepModel::Finish(Err(e)) => (
                done,
                StepModel::Finish(
                    Err(curve_write_failed(cause, RollbackModel::Failed(error_text(e)))),
                ),
            ),
        },
        CurvePhase::Done => (done, StepModel::Finish(Err(ErrorModel::Timeout))),
    }
}

/// The operation a download in state `m` waits on.
pub open spec fn curve_pending(m: CurveModel) -> BusOp {
    match m.phase {
        CurvePhase::Backup { reader } => read_pending(reader),
        CurvePhase::Forward => plan_op(curve_plan(m.encoded)[m.pos]),
        CurvePhase::Rollback { .. } => plan_op(curve_plan(m.backup)[m.pos]),
        CurvePhase::Done => BusOp::Pause,
    }
}

/// A curve plan starts with a bus operation, or, for a count the register
/// cannot hold, with its error.
#[verifier::spinoff_prover]
proof fn lemma_curve_plan_starts(segs: Seq<(u16, u16)>)
    ensures
        curve_plan(segs).len() > 0,
        segs.len() <= WRITABLE_MAX ==> plan_launch(curve_plan(segs), 0) is Issue,
        plan_launch(curve_plan(segs), 0) is Issue || plan_launch(curve_plan(segs), 0) matches StepModel::Finish(Err(_)),
{
    let plan = curve_plan(segs);
    let count = pno_steps(segs.len() as int);
    assert(plan[0] == count[0]);
}

enum CurveStage {
    Backup(CurveReader),
    Forward(PlanRunner),
    Rollback { runner: PlanRunner, cause: AppError },
    Done,
}

/// A curve download in progress.
pub struct CurveTransaction {
    scale: ScaleConfig,
    encoded: Vec<(u16, u16)>,
    backup: Vec<(u16, u16)>,
    stage: CurveStage,
}

impl View for CurveTransaction {
    type V = CurveModel;

    closed spec fn view(&self) -> CurveModel {
        CurveModel {
            phase: match self.stage {
                CurveStage::Backup(reader) => CurvePhase::Backup { reader: reader@ },
                CurveStage::Forward(_) => CurvePhase::Forward,
                CurveStage::Rollback { cause, .. } => CurvePhase::Rollback { cause: cause@ },
                CurveStage::Done => CurvePhase::Done,
            },
            scale: self.scale,
            encoded: self.encoded@,
            backup: self.backup@,
            pos: match self.stage {
                CurveStage::Forward(runner) => runner.position(),
                CurveStage::Rollback { runner, .. } => runner.position(),
                _ => 0,
            },
        }
    }
}

impl CurveTransaction {
    pub closed spec fn wf(&self) -> bool {
        &&& self.encoded@.len() <= MAX_CURVE_SLOTS
        &&& self.backup@.len() <= SEGMENT_MAX_COUNT
        &&& match self.stage {
            CurveStage::Backup(reader) => {
                &&& reader.wf()
                &&& reader@.scale == self.scale
                &&& !(reader@.phase is Done)
            },
            CurveStage::Forward(runner) => {
                &&& runner.wf()
                &&& runner.plan() == curve_plan(self.encoded@)
                &&& runner.waiting()
            },
            CurveStage::Rollback { runner, .. } => {
                &&& runner.wf()
                &&& runner.plan() == curve_plan(self.backup@)
                &&& runner.waiting()
            },
            CurveStage::Done => true,
        }
    }

    pub open spec fn active(&self) -> bool {
        !(self@.phase is Done)
    }

    /// Starts a download of `encoded` (temperature and minutes registers of
    /// each segment); the first steps read the current curve as the backup.
    pub fn start(scale: ScaleConfig, encoded: Vec<(u16, u16)>) -> (res: (CurveTransaction, Step<()>))
        requires
            encoded@.len() <= MAX_CURVE_SLOTS,
        ensures
            res.0.wf(),
            res.0@ == (CurveModel {
                phase: CurvePhase::Backup {
                    reader: CurveReadModel {
                        phase: ReadPhase::Count,
                        scale,
                        count: 0,
                        points: Seq::empty(),
                    },
                },
                scale,
                encoded: encoded@,
                backup: Seq::empty(),
                pos: 0,
            }),
            res.1@ == StepModel::<()>::Issue(BusOp::Read { addr: registers::PNO, count: 1 }),
    {
        let (reader, _) = CurveReader::start(scale);
        (
            CurveTransaction { scale, encoded, backup: Vec::new(), stage: CurveStage::Backup(reader) },
            Step::Issue(BusOp::Read { addr: registers::PNO, count: 1 }),
        )
    }

    /// Begins the rollback to the backup after `cause` ended the forward plan.
    fn begin_rollback(&mut self, cause: AppError) -> (step: Step<()>)
        requires
            old(self).backup@.len() <= SEGMENT_MAX_COUNT,
            old(self).encoded@.len() <= MAX_CURVE_SLOTS,
        ensures
            final(self).wf(),
            final(self)@ == (CurveModel {
                phase: CurvePhase::Rollback { cause: cause@ },
                pos: 0,
                ..old(self)@
            }),
            step@ == plan_launch(curve_plan(old(self).backup@), 0),
    {
        proof {
            lemma_curve_plan_starts(self.backup@);
        }
        let plan = build_curve_plan(&self.backup);
        let (runner, first) = PlanRunner::start(plan);
        self.stage = CurveStage::Rollback { runner, cause };
        first
    }

    /// Hands the reply to the pending operation to the download.
    pub fn resume(&mut self, reply: BusReply) -> (step: Step<()>)
        requires
            old(self).wf(),
            old(self).active(),
            answers(curve_pending(old(self)@), reply@),
        ensures
            final(self).wf(),
            (final(self)@, step@) == curve_next(old(self)@, reply@),
    {
        let ghost before = self@;
        let mut stage = CurveStage::Done;
        std::mem::swap(&mut stage, &mut self.stage);
        match stage {
            CurveStage::Backup(mut reader) => {
                let step = reader.resume(reply);
                match step {
                    Step::Issue(op) => {
                        self.stage = CurveStage::Backup(reader);
                        Step::Issue(op)
                    },
                    Step::Finish(Err(e)) => Step::Finish(Err(e)),
                    Step::Finish(Ok(points)) => {
                        match encode_backup(&points, self.scale) {
                            Err(e) => Step::Finish(Err(e)),
                            Ok(backup) => {
                                self.backup = backup;
                                proof {
                                    lemma_curve_plan_starts(self.encoded@);
                                }
                                let plan = build_curve_plan(&self.encoded);
                                let (runner, first) = PlanRunner::start(plan);
                                match first {
                                    Step::Finish(Err(cause)) => self.begin_rollback(cause),
                                    first => {
                                        self.stage = CurveStage::Forward(runner);
                                        first
                                    },
                                }
                            },
                        }
                    },
                }
            },
            CurveStage::Forward(mut runner) => {
                proof {
                    runner.lemma_position_bounds();
                }
                let step = runner.resume(reply);
                match step {
                    Step::Issue(op) => {
                        self.stage = CurveStage::Forward(runner);
                        Step::Issue(op)
                    },
                    Step::Finish(Ok(())) => Step::Finish(Ok(())),
                    Step::Finish(Err(cause)) => self.begin_rollback(cause),
                }
            },
            CurveStage::Rollback { mut runner, cause } => {
                proof {
                    runner.lemma_position_bounds();
                }
                let step = runner.resume(reply);
                match step {
                    Step::Issue(op) => {
                        self.stage = CurveStage::Rollback { runner, cause };
                        Step::Issue(op)
                    },
                    Step::Finish(Ok(())) => Step::Finish(
                        Err(
                            AppError::WriteFailed {
                                operation: WriteOperation::Curve,
                                cause: cause.message(),
                                rollback: RollbackOutcome::Succeeded,
                            },
                        ),
                    ),
                    Step::Finish(Err(rollback_error)) => Step::Finish(
                        Err(
                            AppError::WriteFailed {
                                operation: WriteOperation::Curve,
                                cause: cause.message(),
                                rollback: RollbackOutcome::Failed(rollback_error.message()),
                            },
                        ),
                    ),
                }
            },
            CurveStage::Done => Step::Finish(Err(AppError::Timeout)),
        }
    }
}

} // verus!

verus! {

proof fn lemma_launch_before_end(plan: Seq<PlanModel>, p: int)
    requires
        0 <= p < plan.len(),
    ensures
        plan_launch(plan, p) != StepModel::<()>::Finish(Ok(())),
{
}

proof fn lemma_final_checks_last(segs: Seq<(u16, u16)>)
    requires
        segs.len() > 0,
    ensures
        final_checks(segs).last() == final_check(segs.len() - 1, segs.last()),
{
}

/// Every segment read is followed by the throttle pause, whether the read
/// succeeded or failed; a failed read ends the curve read with its error
/// only once that pause is over.
pub proof fn law_curve_read_throttles_after_every_segment(
    m: CurveReadModel,
    reply: BusReplyModel,
    after: BusReplyModel,
)
    requires
        m.phase is Segment,
    ensures
        read_next(m, reply).1 == StepModel::<Seq<CurvePoint>>::Issue(BusOp::Pause),
        read_next(m, reply).0.phase matches ReadPhase::Throttle { index, .. } && index
            == m.phase->Segment_index,
        read_next(m, reply).0.phase matches ReadPhase::Throttle { failure: Some(e), .. }
            ==> read_next(read_next(m, reply).0, after).1 == StepModel::<Seq<CurvePoint>>::Finish(
            Err(e),
        ),
{
}

/// The download plan writes the segment count first and reads it back,
/// before any segment register is written.
#[verifier::spinoff_prover]
pub proof fn law_curve_plan_writes_the_count_first(segs: Seq<(u16, u16)>)
    requires
        segs.len() <= WRITABLE_MAX,
    ensures
        curve_plan(segs)[0] == (PlanModel::Write { addr: registers::PNO, value: segs.len() as u16 }),
        curve_plan(segs)[1] matches PlanModel::Verify { addr, expected, .. } && addr == registers::PNO
            && expected == seq![segs.len() as u16],
{
    let count = pno_steps(segs.len() as int);
    assert(curve_plan(segs)[0] == count[0]);
    assert(curve_plan(segs)[1] == count[1]);
}

/// In the download plan, segment `index` is written (temperature, then
/// minutes), the throttle pause follows, and only then is the segment read
/// back.
pub proof fn law_curve_plan_throttles_each_segment(segs: Seq<(u16, u16)>, index: int)
    requires
        segs.len() <= WRITABLE_MAX,
        0 <= index < segs.len(),
    ensures
        curve_plan(segs)[2 + 4 * index] == (PlanModel::Write {
            addr: segment_base(index) as u16,
            value: segs[index].0,
        }),
        curve_plan(segs)[2 + 4 * index + 1] == (PlanModel::Write {
            addr: (segment_base(index) + 1) as u16,
            value: segs[index].1,
        }),
        curve_plan(segs)[2 + 4 * index + 2] == PlanModel::Pause,
        curve_plan(segs)[2 + 4 * index + 3] matches PlanModel::Verify { addr, expected, .. } && addr
            == segment_base(index) as u16 && expected == seq![segs[index].0, segs[index].1],
{
    let plan = curve_plan(segs);
    let a = segment_writes(segs);
    lemma_segment_writes_len(segs);
    lemma_segment_writes_index(segs, index, 0);
    lemma_segment_writes_index(segs, index, 1);
    lemma_segment_writes_index(segs, index, 2);
    lemma_segment_writes_index(segs, index, 3);
    assert(plan[2 + 4 * index] == a[4 * index]);
    assert(plan[2 + 4 * index + 1] == a[4 * index + 1]);
    assert(plan[2 + 4 * index + 2] == a[4 * index + 2]);
    assert(plan[2 + 4 * index + 3] == a[4 * index + 3]);
}

/// The download succeeds only when the last step of the plan, the final
/// read-back of the last segment, matched; the steps before it all passed.
pub proof fn law_curve_success_needs_final_verification(m: CurveModel, reply: BusReplyModel)
    requires
        m.phase is Forward,
        0 <= m.pos < curve_plan(m.encoded).len(),
        curve_next(m, reply).1 == StepModel::<()>::Finish(Ok(())),
    ensures
        m.pos + 1 == curve_plan(m.encoded).len(),
        step_passes(curve_plan(m.encoded)[m.pos], reply),
        m.encoded.len() > 0 ==> curve_plan(m.encoded)[m.pos] == final_check(
            m.encoded.len() - 1,
            m.encoded.last(),
        ),
{
    let plan = curve_plan(m.encoded);
    if m.pos + 1 < plan.len() {
        lemma_launch_before_end(plan, m.pos + 1);
    }
    if m.encoded.len() > 0 {
        lemma_final_checks_len(m.encoded);
        lemma_final_checks_last(m.encoded);
        assert(plan.last() == final_checks(m.encoded).last());
    }
}

/// While the backup is read, the device is only read (and throttled).
pub proof fn law_curve_backup_only_reads(m: CurveModel, reply: BusReplyModel)
    requires
        m.phase is Backup,
        curve_next(m, reply).0.phase is Backup,
    ensures
        !(curve_next(m, reply).1 matches StepModel::Issue(BusOp::Write { .. })),
{
}

/// A failure while writing the new curve is always followed by the
/// rollback, which starts rewriting the backed-up curve.
pub proof fn law_curve_failure_starts_rollback(m: CurveModel, reply: BusReplyModel)
    requires
        m.phase is Forward,
        m.backup.len() <= SEGMENT_MAX_COUNT,
        plan_advance(curve_plan(m.encoded), m.pos, reply) matches StepModel::Finish(Err(_)),
    ensures
        curve_next(m, reply).0.phase is Rollback,
        curve_next(m, reply).0.pos == 0,
        curve_next(m, reply).1 == StepModel::<()>::Issue(plan_op(curve_plan(m.backup)[0])),
{
    lemma_curve_plan_starts(m.backup);
}

/// Once the rollback runs, the download ends in `WriteFailed` for the curve,
/// carrying the first failure; the rollback is reported as succeeded only
/// when its last read-back matched.
pub proof fn law_curve_rollback_is_reported(m: CurveModel, reply: BusReplyModel)
    requires
        m.phase is Rollback,
        0 <= m.pos < curve_plan(m.backup).len(),
        curve_next(m, reply).1 is Finish,
    ensures
        ({
            let cause = m.phase->cause;
            match curve_next(m, reply).1 {
                StepModel::Finish(Err(ErrorModel::WriteFailed { operation, cause: text, rollback })) => {
                    &&& operation == WriteOperation::Curve
                    &&& text == error_text(cause)
                    &&& rollback is Succeeded ==> m.pos + 1 == curve_plan(m.backup).len()
                        && step_passes(curve_plan(m.backup)[m.pos], reply)
                },
                _ => false,
            }
        }),
{
    let plan = curve_plan(m.backup);
    if m.pos + 1 < plan.len() {
        lemma_launch_before_end(plan, m.pos + 1);
    }
}

} // verus!
