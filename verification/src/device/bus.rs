//! The conversation between a device transaction and the Modbus bus.
//!
//! A transaction never touches the bus itself: each step hands out the next
//! bus operation (`Step::Issue`) and is resumed with the reply, until it
//! finishes with its result (`Step::Finish`). The caller performs the
//! operations, so the same decisions run against the serial link, a mock,
//! or a test script.
use vstd::prelude::*;
use crate::error::{AppError, ErrorModel};

verus! {

/// One operation on the bus.
#[derive(Debug, Clone, Copy, PartialEq, Eq, Structural)]
pub enum BusOp {
    /// Read `count` holding registers starting at `addr`.
    Read { addr: u16, count: u16 },
    /// Write one holding register.
    Write { addr: u16, value: u16 },
    /// Wait the inter-segment throttle before talking to the device again.
    Pause,
}

/// The outcome of a `BusOp`, handed back to the transaction.
#[derive(Debug)]
pub enum BusReply {
    Read(Result<Vec<u16>, AppError>),
    Write(Result<(), AppError>),
    Paused,
}

pub enum BusReplyModel {
    Read(Result<Seq<u16>, ErrorModel>),
    Write(Result<(), ErrorModel>),
    Paused,
}

impl View for BusReply {
    type V = BusReplyModel;

    open spec fn view(&self) -> BusReplyModel {
        match self {
            BusReply::Read(Ok(v)) => BusReplyModel::Read(Ok(v@)),
            BusReply::Read(Err(e)) => BusReplyModel::Read(Err(e@)),
            BusReply::Write(Ok(())) => BusReplyModel::Write(Ok(())),
            BusReply::Write(Err(e)) => BusReplyModel::Write(Err(e@)),
            BusReply::Paused => BusReplyModel::Paused,
        }
    }
}

/// Whether `reply` is the kind of reply `op` produces.
pub open spec fn answers(op: BusOp, reply: BusReplyModel) -> bool {
    match op {
        BusOp::Read { .. } => reply is Read,
        BusOp::Write { .. } => reply is Write,
        BusOp::Pause => reply is Paused,
    }
}

/// What a transaction asks for next.
#[derive(Debug)]
pub enum Step<T> {
    Issue(BusOp),
    Finish(Result<T, AppError>),
}

pub enum StepModel<V> {
    Issue(BusOp),
    Finish(Result<V, ErrorModel>),
}

impl<T: View> View for Step<T> {
    type V = StepModel<T::V>;

    open spec fn view(&self) -> StepModel<T::V> {
        match self {
            Step::Issue(op) => StepModel::Issue(*op),
            Step::Finish(Ok(v)) => StepModel::Finish(Ok(v@)),
            Step::Finish(Err(e)) => StepModel::Finish(Err(e@)),
        }
    }
}

/// One step of a write plan.
#[derive(Debug)]
pub enum PlanStep {
    Write { addr: u16, value: u16 },
    Pause,
    /// Read `expected.len()` registers at `addr` and compare: the whole reply
    /// (`whole`) or its first `expected.len()` values must equal `expected`;
    /// otherwise the plan fails with `InvalidData(mismatch)`.
    Verify { addr: u16, expected: Vec<u16>, whole: bool, mismatch: String },
    /// The plan cannot go on; it fails with this error.
    Abort(AppError),
}

pub enum PlanModel {
    Write { addr: u16, value: u16 },
    Pause,
    Verify { addr: u16, expected: Seq<u16>, whole: bool, mismatch: Seq<char> },
    Abort(ErrorModel),
}

impl View for PlanStep {
    type V = PlanModel;

    open spec fn view(&self) -> PlanModel {
        match self {
            PlanStep::Write { addr, value } => PlanModel::Write { addr: *addr, value: *value },
            PlanStep::Pause => PlanModel::Pause,
            PlanStep::Verify { addr, expected, whole, mismatch } => PlanModel::Verify {
                addr: *addr,
                expected: expected@,
                whole: *whole,
                mismatch: mismatch@,
            },
            PlanStep::Abort(e) => PlanModel::Abort(e@),
        }
    }
}

pub open spec fn plan_view(plan: Seq<PlanStep>) -> Seq<PlanModel> {
    plan.map_values(|s: PlanStep| s@)
}

/// A plan can be carried out: every verification reads 1 to 65535 registers.
pub open spec fn plan_wf(plan: Seq<PlanModel>) -> bool {
    forall|k: int|
        0 <= k < plan.len() ==> match #[trigger] plan[k] {
            PlanModel::Verify { expected, .. } => 1 <= expected.len() <= u16::MAX,
            _ => true,
        }
}

/// The bus operation a (non-abort) plan step performs.
pub open spec fn plan_op(step: PlanModel) -> BusOp {
    match step {
        PlanModel::Write { addr, value } => BusOp::Write { addr, value },
        PlanModel::Verify { addr, expected, .. } => BusOp::Read {
            addr,
            count: expected.len() as u16,
        },
        _ => BusOp::Pause,
    }
}

/// Whether the registers read back satisfy a verification.
pub open spec fn read_back_matches(values: Seq<u16>, expected: Seq<u16>, whole: bool) -> bool {
    if whole {
        values == expected
    } else {
        values.len() >= expected.len() && values.take(expected.len() as int) == expected
    }
}

/// Whether the reply lets the plan go past this step.
pub open spec fn step_passes(step: PlanModel, reply: BusReplyModel) -> bool {
    match step {
        PlanModel::Write { .. } => reply == BusReplyModel::Write(Ok(())),
        PlanModel::Pause => true,
        PlanModel::Verify { expected, whole, .. } => match reply {
            BusReplyModel::Read(Ok(values)) => read_back_matches(values, expected, whole),
            _ => false,
        },
        PlanModel::Abort(_) => false,
    }
}

/// The error a plan fails with when the reply does not pass its step.
pub open spec fn step_failure(step: PlanModel, reply: BusReplyModel) -> ErrorModel {
    match reply {
        BusReplyModel::Write(Err(e)) => e,
        BusReplyModel::Read(Err(e)) => e,
        _ => match step {
            PlanModel::Verify { mismatch, .. } => ErrorModel::InvalidData(mismatch),
            _ => ErrorModel::Timeout,
        },
    }
}

/// What the plan asks for when it reaches position `pos`.
pub open spec fn plan_launch(plan: Seq<PlanModel>, pos: int) -> StepModel<()> {
    if pos >= plan.len() {
        StepModel::Finish(Ok(()))
    } else {
        match plan[pos] {
            PlanModel::Abort(e) => StepModel::Finish(Err(e)),
            step => StepModel::Issue(plan_op(step)),
        }
    }
}

/// Carries out a plan: each step must pass before the next one is issued,
/// and the first step that does not pass ends the plan with its error.
pub struct PlanRunner {
    plan: Vec<PlanStep>,
    pos: usize,
    /// The replies that passed the steps before `pos`.
    passed: Ghost<Seq<BusReplyModel>>,
}

impl PlanRunner {
    pub closed spec fn plan(&self) -> Seq<PlanModel> {
        plan_view(self.plan@)
    }

    /// The position of the step whose reply is awaited.
    pub closed spec fn position(&self) -> int {
        self.pos as int
    }

    /// The replies received so far; each passed its step.
    pub closed spec fn history(&self) -> Seq<BusReplyModel> {
        self.passed@
    }

    pub closed spec fn wf(&self) -> bool {
        &&& plan_wf(self.plan())
        &&& self.pos <= self.plan@.len()
        &&& self.passed@.len() == self.pos
        &&& forall|k: int|
            0 <= k < self.pos ==> step_passes(self.plan()[k], #[trigger] self.passed@[k])
    }

    pub proof fn lemma_position_bounds(&self)
        requires
            self.wf(),
        ensures
            0 <= self.position() <= self.plan().len(),
            self.history().len() == self.position(),
    {
    }

    /// A plan is through only when every one of its steps got a reply that
    /// passed it: each write was acknowledged and each read-back matched.
    pub proof fn law_completed_plan_passed_every_step(&self)
        requires
            self.wf(),
            self.position() == self.plan().len(),
        ensures
            self.history().len() == self.plan().len(),
            forall|k: int|
                0 <= k < self.plan().len() ==> step_passes(
                    self.plan()[k],
                    #[trigger] self.history()[k],
                ),
    {
    }

    /// Whether the runner waits for a reply to the operation it issued.
    pub open spec fn waiting(&self) -> bool {
        plan_launch(self.plan(), self.position()) is Issue
    }

    /// The operation whose reply the runner waits for.
    pub open spec fn pending(&self) -> BusOp {
        plan_op(self.plan()[self.position()])
    }

    pub fn start(plan: Vec<PlanStep>) -> (res: (PlanRunner, Step<()>))
        requires
            plan_wf(plan_view(plan@)),
        ensures
            res.0.wf(),
            res.0.plan() == plan_view(plan@),
            res.0.position() == 0,
            res.1@ == plan_launch(res.0.plan(), 0),
    {
        let runner = PlanRunner { plan, pos: 0, passed: Ghost(Seq::empty()) };
        let step = runner.launch();
        (runner, step)
    }

    fn launch(&self) -> (step: Step<()>)
        requires
            self.wf(),
        ensures
            step@ == plan_launch(self.plan(), self.position()),
    {
        if self.pos >= self.plan.len() {
            return Step::Finish(Ok(()));
        }
        let ghost model = self.plan()[self.position()];
        assert(model == self.plan@[self.pos as int]@);
        match &self.plan[self.pos] {
            PlanStep::Write { addr, value } => Step::Issue(BusOp::Write { addr: *addr, value: *value }),
            PlanStep::Pause => Step::Issue(BusOp::Pause),
            PlanStep::Verify { addr, expected, .. } => {
                assert(1 <= expected@.len() <= u16::MAX) by {
                    assert(match self.plan()[self.position()] {
                        PlanModel::Verify { expected, .. } => 1 <= expected.len() <= u16::MAX,
                        _ => true,
                    });
                }
                Step::Issue(BusOp::Read { addr: *addr, count: expected.len() as u16 })
            },
            PlanStep::Abort(e) => Step::Finish(Err(e.duplicate())),
        }
    }

    /// Hands the reply to the pending step and returns what comes next.
    pub fn resume(&mut self, reply: BusReply) -> (step: Step<()>)
        requires
            old(self).wf(),
            old(self).waiting(),
            answers(old(self).pending(), reply@),
        ensures
            final(self).wf(),
            final(self).plan() == old(self).plan(),
            step_passes(old(self).plan()[old(self).position()], reply@) ==> {
                &&& final(self).position() == old(self).position() + 1
                &&& final(self).history() == old(self).history().push(reply@)
                &&& step@ == plan_launch(final(self).plan(), final(self).position())
            },
            !step_passes(old(self).plan()[old(self).position()], reply@) ==> {
                &&& final(self).position() == old(self).position()
                &&& step@ == StepModel::<()>::Finish(
                    Err(step_failure(old(self).plan()[old(self).position()], reply@)),
                )
            },
    {
        let ghost step_model = self.plan()[self.position()];
        assert(self.position() < self.plan().len());
        assert(self.pos < self.plan@.len());
        let plan_len = self.plan.len();
        assert(step_model == self.plan@[self.pos as int]@);
        let passed = match (&self.plan[self.pos], &reply) {
            (PlanStep::Write { .. }, BusReply::Write(Ok(()))) => true,
            (PlanStep::Pause, _) => true,
            (PlanStep::Verify { expected, whole, .. }, BusReply::Read(Ok(values))) => {
                read_back_equals(values, expected, *whole)
            },
            _ => false,
        };
        if passed {
            proof {
                self.passed@ = self.passed@.push(reply@);
            }
            self.pos = self.pos + 1;
            proof {
                assert forall|k: int| 0 <= k < self.pos implies step_passes(
                    self.plan()[k],
                    #[trigger] self.passed@[k],
                ) by {
                    if k < self.pos - 1 {
                        assert(self.passed@[k] == old(self).passed@[k]);
                    }
                }
            }
            self.launch()
        } else {
            match reply {
                BusReply::Write(Err(e)) => Step::Finish(Err(e)),
                BusReply::Read(Err(e)) => Step::Finish(Err(e)),
                _ => {
                    match &self.plan[self.pos] {
                        PlanStep::Verify { mismatch, .. } => Step::Finish(
                            Err(AppError::InvalidData(mismatch.clone())),
                        ),
                        _ => Step::Finish(Err(AppError::Timeout)),
                    }
                },
            }
        }
    }
}

/// Compares read-back registers with the expected values.
fn read_back_equals(values: &Vec<u16>, expected: &Vec<u16>, whole: bool) -> (ok: bool)
    ensures
        ok == read_back_matches(values@, expected@, whole),
{
    if whole && values.len() != expected.len() {
        return false;
    }
    if values.len() < expected.len() {
        return false;
    }
    let mut k: usize = 0;
    while k < expected.len()
        invariant
            expected@.len() <= values@.len(),
            whole ==> values@.len() == expected@.len(),
            0 <= k <= expected@.len(),
            forall|j: int| 0 <= j < k ==> values@[j] == expected@[j],
        decreases expected@.len() - k,
    {
        if values[k] != expected[k] {
            proof {
                if whole {
                    assert(values@[k as int] != expected@[k as int]);
                } else {
                    assert(values@.take(expected@.len() as int)[k as int] != expected@[k as int]);
                }
            }
            return false;
        }
        k = k + 1;
    }
    proof {
        if whole {
            assert(values@ =~= expected@);
        } else {
            assert(values@.take(expected@.len() as int) =~= expected@);
        }
    }
    true
}

} // verus!
