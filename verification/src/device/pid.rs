//! The PID write transaction: back up P, I and D, write the new values,
//! verify them by reading back, and restore the backup if anything fails.
use vstd::prelude::*;
use crate::device::bus::{
    BusOp, BusReply, BusReplyModel, PlanModel, PlanRunner, PlanStep, Step, StepModel, answers,
    plan_launch, plan_op, plan_view, plan_wf, step_failure, step_passes,
};
use crate::error::{AppError, ErrorModel, RollbackModel, RollbackOutcome, WriteOperation, error_text};
use crate::modbus::registers;

verus! {

/// The writes and the read-back that put `values` into P, I and D.
pub open spec fn pid_plan(values: Seq<u16>) -> Seq<PlanModel> {
    seq![
        PlanModel::Write { addr: registers::P, value: values[0] },
        PlanModel::Write { addr: registers::I, value: values[1] },
        PlanModel::Write { addr: registers::D, value: values[2] },
        PlanModel::Verify {
            addr: registers::P,
            expected: values,
            whole: true,
            mismatch: "PID read-back verification failed"@,
        },
    ]
}

fn build_pid_plan(values: &Vec<u16>) -> (plan: Vec<PlanStep>)
    requires
        values@.len() == 3,
    ensures
        plan_view(plan@) == pid_plan(values@),
        plan_wf(pid_plan(values@)),
{
    let mut plan: Vec<PlanStep> = Vec::new();
    plan.push(PlanStep::Write { addr: registers::P, value: values[0] });
    plan.push(PlanStep::Write { addr: registers::I, value: values[1] });
    plan.push(PlanStep::Write { addr: registers::D, value: values[2] });
    plan.push(
        PlanStep::Verify {
            addr: registers::P,
            expected: values.clone(),
            whole: true,
            mismatch: String::from_str("PID read-back verification failed"),
        },
    );
    assert(plan_view(plan@) =~= pid_plan(values@));
    plan
}

proof fn lemma_pid_plan_shape(values: Seq<u16>)
    ensures
        pid_plan(values).len() == 4,
        forall|k: int| 0 <= k < 4 ==> !(#[trigger] pid_plan(values)[k] is Abort),
{
    assert forall|k: int| 0 <= k < 4 implies !(#[trigger] pid_plan(values)[k] is Abort) by {
        if k == 0 {
        } else if k == 1 {
        } else if k == 2 {
        } else {
        }
    }
}

proof fn lemma_pid_launch(values: Seq<u16>, p: int)
    requires
        p >= 0,
    ensures
        p < 4 ==> plan_launch(pid_plan(values), p) == StepModel::<()>::Issue(
            plan_op(pid_plan(values)[p]),
        ),
        p >= 4 ==> plan_launch(pid_plan(values), p) == StepModel::<()>::Finish(Ok(())),
{
    lemma_pid_plan_shape(values);
    if p < 4 {
        assert(!(pid_plan(values)[p] is Abort));
    }
}

pub enum PidPhase {
    Backup,
    Forward,
    Rollback { cause: ErrorModel },
    Done,
}

/// The state of a PID transaction: the values to write, the backup read
/// from the device, and the position in the current plan.
pub struct PidModel {
    pub phase: PidPhase,
    pub encoded: Seq<u16>,
    pub previous: Seq<u16>,
    pub pos: int,
}

pub open spec fn pid_write_failed(cause: ErrorModel, rollback: RollbackModel) -> ErrorModel {
    ErrorModel::WriteFailed {
        operation: WriteOperation::Pid,
        cause: error_text(cause),
        rollback,
    }
}

/// The protocol of the PID transaction: the next state and step after `reply`.
pub open spec fn pid_next(m: PidModel, reply: BusReplyModel) -> (PidModel, StepModel<()>) {
    match m.phase {
        PidPhase::Backup => match reply {
            BusReplyModel::Read(Ok(values)) => if values.len() == 3 {
                (
                    PidModel { phase: PidPhase::Forward, previous: values, pos: 0, ..m },
                    plan_launch(pid_plan(m.encoded), 0),
                )
            } else {
                (
                    PidModel { phase: PidPhase::Done, ..m },
                    StepModel::Finish(
                        Err(ErrorModel::InvalidData("PID backup has insufficient data"@)),
                    ),
                )
            },
            BusReplyModel::Read(Err(e)) => (
                PidModel { phase: PidPhase::Done, ..m },
                StepModel::Finish(Err(e)),
            ),
            _ => (m, StepModel::Finish(Err(ErrorModel::Timeout))),
        },
        PidPhase::Forward => {
            let plan = pid_plan(m.encoded);
            if step_passes(plan[m.pos], reply) {
                let next = plan_launch(plan, m.pos + 1);
                (
                    PidModel {
                        phase: if next is Issue {
                            PidPhase::Forward
                        } else {
                            PidPhase::Done
                        },
                        pos: if next is Issue {
                            m.pos + 1
                        } else {
                            0
                        },
                        ..m
                    },
                    next,
                )
            } else {
                (
                    PidModel {
                        phase: PidPhase::Rollback { cause: step_failure(plan[m.pos], reply) },
                        pos: 0,
                        ..m
                    },
                    plan_launch(pid_plan(m.previous), 0),
                )
            }
        },
        PidPhase::Rollback { cause } => {
            let plan = pid_plan(m.previous);
            if step_passes(plan[m.pos], reply) {
                let next = plan_launch(plan, m.pos + 1);
                if next is Issue {
                    (PidModel { pos: m.pos + 1, ..m }, next)
                } else {
                    (
                        PidModel { phase: PidPhase::Done, pos: 0, ..m },
                        StepModel::Finish(Err(pid_write_failed(cause, RollbackModel::Succeeded))),
                    )
                }
            } else {
                (
                    PidModel { phase: PidPhase::Done, pos: 0, ..m },
                    StepModel::Finish(
                        Err(
                            pid_write_failed(
                                cause,
                                RollbackModel::Failed(error_text(step_failure(plan[m.pos], reply))),
                            ),
                        ),
                    ),
                )
            }
        },
        PidPhase::Done => (m, StepModel::Finish(Err(ErrorModel::Timeout))),
    }
}

/// The operation a transaction in state `m` waits on.
pub open spec fn pid_pending(m: PidModel) -> BusOp {
    match m.phase {
        PidPhase::Backup => BusOp::Read { addr: registers::P, count: 3 },
        PidPhase::Forward => plan_op(pid_plan(m.encoded)[m.pos]),
        PidPhase::Rollback { .. } => plan_op(pid_plan(m.previous)[m.pos]),
        PidPhase::Done => BusOp::Pause,
    }
}

enum PidStage {
    Backup,
    Forward { runner: PlanRunner },
    Rollback { runner: PlanRunner, cause: AppError },
    Done,
}

/// A PID write transaction in progress.
pub struct PidTransaction {
    encoded: Vec<u16>,
    previous: Vec<u16>,
    stage: PidStage,
}

impl View for PidTransaction {
    type V = PidModel;

    closed spec fn view(&self) -> PidModel {
        PidModel {
            phase: match self.stage {
                PidStage::Backup => PidPhase::Backup,
                PidStage::Forward { .. } => PidPhase::Forward,
                PidStage::Rollback { cause, .. } => PidPhase::Rollback { cause: cause@ },
                PidStage::Done => PidPhase::Done,
            },
            encoded: self.encoded@,
            previous: self.previous@,
            pos: match self.stage {
                PidStage::Forward { runner } => runner.position(),
                PidStage::Rollback { runner, .. } => runner.position(),
                _ => 0,
            },
        }
    }
}

impl PidTransaction {
    pub closed spec fn wf(&self) -> bool {
        &&& self.encoded@.len() == 3
        &&& match self.stage {
            PidStage::Forward { runner } => {
                &&& runner.wf()
                &&& runner.plan() == pid_plan(self.encoded@)
                &&& runner.waiting()
                &&& self.previous@.len() == 3
            },
            PidStage::Rollback { runner, .. } => {
                &&& runner.wf()
                &&& runner.plan() == pid_plan(self.previous@)
                &&& runner.waiting()
                &&& self.previous@.len() == 3
            },
            _ => true,
        }
    }

    /// Whether the transaction waits for a reply.
    pub open spec fn active(&self) -> bool {
        !(self@.phase is Done)
    }

    /// Starts a transaction that writes `encoded` (P, I, D register values);
    /// the first step reads the current values as the backup.
    pub fn start(encoded: [u16; 3]) -> (res: (PidTransaction, Step<()>))
        ensures
            res.0.wf(),
            res.0@.phase == PidPhase::Backup,
            res.0@.encoded == encoded@,
            res.0@.previous == Seq::<u16>::empty(),
            res.0@.pos == 0,
            res.1@ == StepModel::<()>::Issue(BusOp::Read { addr: registers::P, count: 3 }),
    {
        let mut values: Vec<u16> = Vec::new();
        values.push(encoded[0]);
        values.push(encoded[1]);
        values.push(encoded[2]);
        assert(values@ =~= encoded@);
        (
            PidTransaction { encoded: values, previous: Vec::new(), stage: PidStage::Backup },
            Step::Issue(BusOp::Read { addr: registers::P, count: 3 }),
        )
    }

    /// Hands the reply to the pending operation to the transaction.
    pub fn resume(&mut self, reply: BusReply) -> (step: Step<()>)
        requires
            old(self).wf(),
            old(self).active(),
            answers(pid_pending(old(self)@), reply@),
        ensures
            final(self).wf(),
            (final(self)@, step@) == pid_next(old(self)@, reply@),
    {
        proof {
            lemma_pid_plan_shape(self.encoded@);
            lemma_pid_plan_shape(self.previous@);
        }
        let ghost before = self@;
        let mut stage = PidStage::Done;
        std::mem::swap(&mut stage, &mut self.stage);
        match stage {
            PidStage::Backup => {
                match reply {
                    BusReply::Read(Ok(values)) => {
                        if values.len() == 3 {
                            self.previous = values;
                            let plan = build_pid_plan(&self.encoded);
                            proof {
                                lemma_pid_launch(self.encoded@, 0);
                            }
                            let (runner, step) = PlanRunner::start(plan);
                            self.stage = PidStage::Forward { runner };
                            step
                        } else {
                            Step::Finish(
                                Err(
                                    AppError::InvalidData(
                                        String::from_str("PID backup has insufficient data"),
                                    ),
                                ),
                            )
                        }
                    },
                    BusReply::Read(Err(e)) => Step::Finish(Err(e)),
                    _ => {
                        self.stage = PidStage::Backup;
                        Step::Finish(Err(AppError::Timeout))
                    },
                }
            },
            PidStage::Forward { mut runner } => {
                proof {
                    runner.lemma_position_bounds();
                    lemma_pid_launch(self.encoded@, before.pos + 1);
                    lemma_pid_launch(self.previous@, 0);
                }
                let step = runner.resume(reply);
                match step {
                    Step::Issue(op) => {
                        self.stage = PidStage::Forward { runner };
                        Step::Issue(op)
                    },
                    Step::Finish(Ok(())) => Step::Finish(Ok(())),
                    Step::Finish(Err(cause)) => {
                        let plan = build_pid_plan(&self.previous);
                        let (rollback, first) = PlanRunner::start(plan);
                        self.stage = PidStage::Rollback { runner: rollback, cause };
                        first
                    },
                }
            },
            PidStage::Rollback { mut runner, cause } => {
                proof {
                    runner.lemma_position_bounds();
                    lemma_pid_launch(self.previous@, before.pos + 1);
                }
                let step = runner.resume(reply);
                match step {
                    Step::Issue(op) => {
                        self.stage = PidStage::Rollback { runner, cause };
                        Step::Issue(op)
                    },
                    Step::Finish(Ok(())) => {
                        self.stage = PidStage::Done;
                        Step::Finish(
                            Err(
                                AppError::WriteFailed {
                                    operation: WriteOperation::Pid,
                                    cause: cause.message(),
                                    rollback: RollbackOutcome::Succeeded,
                                },
                            ),
                        )
                    },
                    Step::Finish(Err(rollback_error)) => {
                        self.stage = PidStage::Done;
                        Step::Finish(
                            Err(
                                AppError::WriteFailed {
                                    operation: WriteOperation::Pid,
                                    cause: cause.message(),
                                    rollback: RollbackOutcome::Failed(rollback_error.message()),
                                },
                            ),
                        )
                    },
                }
            },
            PidStage::Done => Step::Finish(Err(AppError::Timeout)),
        }
    }
}

} // verus!

verus! {

/// Nothing is written before the backup: from the backup read, the only
/// write that can follow is the first new value (P), and only after the
/// read returned the three current values.
pub proof fn law_pid_backup_precedes_writes(m: PidModel, reply: BusReplyModel)
    requires
        m.phase is Backup,
        m.encoded.len() == 3,
    ensures
        pid_next(m, reply).1 is Issue ==> {
            &&& reply matches BusReplyModel::Read(Ok(values)) && values.len() == 3
                && pid_next(m, reply).0.previous == values
            &&& pid_next(m, reply).1 == StepModel::<()>::Issue(
                BusOp::Write { addr: registers::P, value: m.encoded[0] },
            )
        },
{
    lemma_pid_launch(m.encoded, 0);
}

/// The transaction succeeds only on a read-back of P, I and D that equals
/// the new values, after the three writes were acknowledged.
pub proof fn law_pid_success_needs_verified_read_back(m: PidModel, reply: BusReplyModel)
    requires
        0 <= m.pos < 4,
        pid_next(m, reply).1 == StepModel::<()>::Finish(Ok(())),
    ensures
        m.phase is Forward,
        m.pos == 3,
        reply == BusReplyModel::Read(Ok(m.encoded)),
{
    lemma_pid_launch(m.encoded, m.pos + 1);
    lemma_pid_launch(m.encoded, 0);
    lemma_pid_launch(m.previous, 0);
    lemma_pid_launch(m.previous, m.pos + 1);
    assert(pid_plan(m.encoded)[3] == PlanModel::Verify {
        addr: registers::P,
        expected: m.encoded,
        whole: true,
        mismatch: "PID read-back verification failed"@,
    });
}

/// A failure while writing the new values is always followed by the
/// rollback: the next operation writes the backed-up P.
pub proof fn law_pid_failure_starts_rollback(m: PidModel, reply: BusReplyModel)
    requires
        m.phase is Forward,
        0 <= m.pos < 4,
        !step_passes(pid_plan(m.encoded)[m.pos], reply),
    ensures
        pid_next(m, reply).0.phase == (PidPhase::Rollback {
            cause: step_failure(pid_plan(m.encoded)[m.pos], reply),
        }),
        pid_next(m, reply).1 == StepModel::<()>::Issue(
            BusOp::Write { addr: registers::P, value: m.previous[0] },
        ),
{
    lemma_pid_launch(m.previous, 0);
}

/// Once the rollback runs, the transaction ends in `WriteFailed` for the PID
/// write, carrying the first failure; the rollback is reported as succeeded
/// only on a read-back that equals the backup.
pub proof fn law_pid_rollback_is_reported(m: PidModel, reply: BusReplyModel)
    requires
        m.phase is Rollback,
        0 <= m.pos < 4,
        pid_next(m, reply).1 is Finish,
    ensures
        ({
            let cause = m.phase->cause;
            match pid_next(m, reply).1 {
                StepModel::Finish(Err(ErrorModel::WriteFailed { operation, cause: text, rollback })) => {
                    &&& operation == WriteOperation::Pid
                    &&& text == error_text(cause)
                    &&& rollback is Succeeded ==> m.pos == 3 && reply == BusReplyModel::Read(
                        Ok(m.previous),
                    )
                },
                _ => false,
            }
        }),
{
    lemma_pid_launch(m.previous, m.pos + 1);
}

} // verus!
