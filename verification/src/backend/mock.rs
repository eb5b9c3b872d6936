//! A simulated controller: a register map that answers like the device.
use vstd::prelude::*;
use std::collections::HashMap;
use crate::device::bus::{
    BusOp, BusReplyModel, PlanModel, StepModel, plan_launch, plan_op, read_back_matches, step_failure,
    step_passes,
};
use crate::device::curve::{
    CurveModel, CurvePhase, CurvePoint, CurveReadModel, ReadPhase, backup_registers, curve_next,
    curve_plan, final_checks, lemma_final_checks_index,
    lemma_final_checks_len, lemma_segment_writes_index, lemma_segment_writes_len, pno_steps,
    point_valid, read_next, segment_base, segment_read, segment_write_steps, segment_writes,
};
use crate::modbus::convert::{ScaleConfig, is_writable, law_written_value_reads_back, register_of};
use crate::modbus::validate::SEGMENT_MAX_COUNT;
use crate::device::pid::{PidModel, PidPhase, pid_next};
use crate::error::{AppError, ErrorModel};
use crate::modbus::registers;
use crate::types::ConnectionConfig;

verus! {

broadcast use vstd::std_specs::hash::group_hash_axioms;

/// What a register holds: its stored value, or 0 if never written.
pub open spec fn register_value(registers: Map<u16, u16>, addr: int) -> u16 {
    if registers.contains_key(addr as u16) {
        registers[addr as u16]
    } else {
        0
    }
}

/// The registers of the simulated AI-516P with a three-segment curve.
pub open spec fn normal_registers() -> Map<u16, u16> {
    map![
        registers::MODEL => registers::MODEL_AI_516P,
        registers::DPT => 1u16,
        registers::PV => 1005u16,
        registers::SV => 1000u16,
        registers::MV_READ => 12800u16,
        registers::SP1 => 1000u16,
        registers::P => 120u16,
        registers::I => 300u16,
        registers::D => 45u16,
        registers::PNO => 3u16,
        registers::SP_START => 1000u16,
        (registers::SP_START + 1) as u16 => 20u16,
        (registers::SP_START + 2) as u16 => 1500u16,
        (registers::SP_START + 3) as u16 => 30u16,
        (registers::SP_START + 4) as u16 => 800u16,
        (registers::SP_START + 5) as u16 => 15u16,
    ]
}

pub struct MockModel {
    pub registers: Map<u16, u16>,
    pub connected: bool,
    pub offline: bool,
}

/// The readiness check every register access makes.
pub open spec fn readiness(m: MockModel) -> Result<(), ErrorModel> {
    if !m.connected {
        Err(ErrorModel::NotConnected)
    } else if m.offline {
        Err(ErrorModel::Timeout)
    } else {
        Ok(())
    }
}

/// A simulated controller.
pub struct MockBackend {
    registers: HashMap<u16, u16>,
    connected: bool,
    offline: bool,
}

impl View for MockBackend {
    type V = MockModel;

    closed spec fn view(&self) -> MockModel {
        MockModel { registers: self.registers@, connected: self.connected, offline: self.offline }
    }
}

impl MockBackend {
    /// A disconnected, responsive AI-516P.
    pub fn normal() -> (b: Self)
        ensures
            b@ == (MockModel { registers: normal_registers(), connected: false, offline: false }),
    {
        let mut registers: HashMap<u16, u16> = HashMap::new();
        registers.insert(registers::MODEL, registers::MODEL_AI_516P);
        registers.insert(registers::DPT, 1);
        registers.insert(registers::PV, 1005);
        registers.insert(registers::SV, 1000);
        registers.insert(registers::MV_READ, 12800);
        registers.insert(registers::SP1, 1000);
        registers.insert(registers::P, 120);
        registers.insert(registers::I, 300);
        registers.insert(registers::D, 45);
        registers.insert(registers::PNO, 3);
        registers.insert(registers::SP_START, 1000);
        registers.insert(registers::SP_START + 1, 20);
        registers.insert(registers::SP_START + 2, 1500);
        registers.insert(registers::SP_START + 3, 30);
        registers.insert(registers::SP_START + 4, 800);
        registers.insert(registers::SP_START + 5, 15);
        assert(registers@ =~= normal_registers());
        MockBackend { registers, connected: false, offline: false }
    }

    /// The same device, but every register access times out.
    pub fn offline() -> (b: Self)
        ensures
            b@ == (MockModel { registers: normal_registers(), connected: false, offline: true }),
    {
        let mut backend = Self::normal();
        backend.offline = true;
        backend
    }

    /// The check every register access makes: connected, and not offline.
    pub fn ensure_ready(&self) -> (r: Result<(), AppError>)
        ensures
            match (r, readiness(self@)) {
                (Ok(()), Ok(())) => true,
                (Err(e), Err(m)) => e@ == m,
                _ => false,
            },
    {
        if !self.connected {
            return Err(AppError::NotConnected);
        }
        if self.offline {
            return Err(AppError::Timeout);
        }
        Ok(())
    }

    pub fn connect(&mut self, _cfg: &ConnectionConfig) -> (r: Result<(), AppError>)
        ensures
            r is Ok,
            final(self)@ == (MockModel { connected: true, ..old(self)@ }),
    {
        self.connected = true;
        Ok(())
    }

    pub fn disconnect(&mut self) -> (r: Result<(), AppError>)
        ensures
            r is Ok,
            final(self)@ == (MockModel { connected: false, ..old(self)@ }),
    {
        self.connected = false;
        Ok(())
    }

    /// Reads `count` registers from `addr`; unset registers read as 0.
    pub fn read_registers(&mut self, addr: u16, count: u16) -> (r: Result<Vec<u16>, AppError>)
        requires
            readiness(old(self)@) is Ok ==> addr as int + count as int <= 65536,
        ensures
            final(self)@ == old(self)@,
            match (r, readiness(old(self)@)) {
                (Ok(values), Ok(())) => values@.len() == count && forall|k: int|
                    0 <= k < count ==> #[trigger] values@[k] == register_value(
                        old(self)@.registers,
                        addr + k,
                    ),
                (Err(e), Err(m)) => e@ == m,
                _ => false,
            },
    {
        self.ensure_ready()?;
        let mut values: Vec<u16> = Vec::new();
        let mut offset: u16 = 0;
        while offset < count
            invariant
                addr as int + count as int <= 65536,
                0 <= offset <= count,
                values@.len() == offset,
                forall|k: int|
                    0 <= k < offset ==> #[trigger] values@[k] == register_value(
                        self@.registers,
                        addr + k,
                    ),
            decreases count - offset,
        {
            let value = match self.registers.get(&(addr + offset)) {
                Some(v) => *v,
                None => 0,
            };
            values.push(value);
            offset = offset + 1;
        }
        Ok(values)
    }

    /// Stores `value` in register `addr`.
    pub fn write_register(&mut self, addr: u16, value: u16) -> (r: Result<(), AppError>)
        ensures
            match (r, readiness(old(self)@)) {
                (Ok(()), Ok(())) => final(self)@ == (MockModel {
                    registers: old(self)@.registers.insert(addr, value),
                    ..old(self)@
                }),
                (Err(e), Err(m)) => e@ == m && final(self)@ == old(self)@,
                _ => false,
            },
    {
        self.ensure_ready()?;
        self.registers.insert(addr, value);
        Ok(())
    }
}

} // verus!

verus! {

/// How the simulated device answers a bus operation: the new device state
/// and the reply (what `read_registers` and `write_register` do).
pub open spec fn mock_answer(m: MockModel, op: BusOp) -> (MockModel, BusReplyModel) {
    match op {
        BusOp::Read { addr, count } => match readiness(m) {
            Err(e) => (m, BusReplyModel::Read(Err(e))),
            Ok(()) => (
                m,
                BusReplyModel::Read(
                    Ok(Seq::new(count as nat, |k: int| register_value(m.registers, addr + k))),
                ),
            ),
        },
        BusOp::Write { addr, value } => match readiness(m) {
            Err(e) => (m, BusReplyModel::Write(Err(e))),
            Ok(()) => (
                MockModel { registers: m.registers.insert(addr, value), ..m },
                BusReplyModel::Write(Ok(())),
            ),
        },
        BusOp::Pause => (m, BusReplyModel::Paused),
    }
}

/// A register reads back the last value written to it, and a write leaves
/// every other register as it was.
pub proof fn law_mock_reads_back_writes(m: MockModel, addr: u16, value: u16, other: u16)
    requires
        readiness(m) is Ok,
    ensures
        ({
            let (after, reply) = mock_answer(m, BusOp::Write { addr, value });
            &&& reply == BusReplyModel::Write(Ok(()))
            &&& mock_answer(after, BusOp::Read { addr, count: 1 }).1 == BusReplyModel::Read(
                Ok(seq![value]),
            )
            &&& other != addr ==> register_value(after.registers, other as int) == register_value(
                m.registers,
                other as int,
            )
        }),
{
    let (after, reply) = mock_answer(m, BusOp::Write { addr, value });
    let read = mock_answer(after, BusOp::Read { addr, count: 1 }).1;
    assert(read->Read_0->Ok_0 =~= seq![value]);
}

/// Runs a PID transaction against the simulated device: answers `op`, hands
/// the reply to the transaction, and goes on for at most `fuel` operations.
pub open spec fn pid_on_mock(m: PidModel, dev: MockModel, op: BusOp, fuel: nat) -> (
    StepModel<()>,
    MockModel,
)
    decreases fuel,
{
    let (dev2, reply) = mock_answer(dev, op);
    let (m2, step) = pid_next(m, reply);
    match step {
        StepModel::Issue(next) => if fuel == 0 {
            (step, dev2)
        } else {
            pid_on_mock(m2, dev2, next, (fuel - 1) as nat)
        },
        _ => (step, dev2),
    }
}

/// On a responsive device the PID transaction commits: it succeeds and P, I
/// and D hold the new values.
pub proof fn law_pid_commits_on_responsive_device(dev: MockModel, encoded: Seq<u16>)
    requires
        readiness(dev) is Ok,
        encoded.len() == 3,
    ensures
        ({
            let start = PidModel {
                phase: PidPhase::Backup,
                encoded,
                previous: Seq::empty(),
                pos: 0,
            };
            let (result, after) = pid_on_mock(
                start,
                dev,
                BusOp::Read { addr: registers::P, count: 3 },
                4,
            );
            &&& result == StepModel::<()>::Finish(Ok(()))
            &&& after.registers == dev.registers.insert(registers::P, encoded[0]).insert(
                registers::I,
                encoded[1],
            ).insert(registers::D, encoded[2])
        }),
{
    let m0 = PidModel { phase: PidPhase::Backup, encoded, previous: Seq::empty(), pos: 0 };
    reveal_with_fuel(pid_on_mock, 5);
    let (d1, r1) = mock_answer(dev, BusOp::Read { addr: registers::P, count: 3 });
    let (m1, s1) = pid_next(m0, r1);
    assert(s1 == StepModel::<()>::Issue(BusOp::Write { addr: registers::P, value: encoded[0] }));
    let (d2, r2) = mock_answer(d1, BusOp::Write { addr: registers::P, value: encoded[0] });
    let (m2, s2) = pid_next(m1, r2);
    assert(s2 == StepModel::<()>::Issue(BusOp::Write { addr: registers::I, value: encoded[1] }));
    let (d3, r3) = mock_answer(d2, BusOp::Write { addr: registers::I, value: encoded[1] });
    let (m3, s3) = pid_next(m2, r3);
    assert(s3 == StepModel::<()>::Issue(BusOp::Write { addr: registers::D, value: encoded[2] }));
    let (d4, r4) = mock_answer(d3, BusOp::Write { addr: registers::D, value: encoded[2] });
    let (m4, s4) = pid_next(m3, r4);
    assert(s4 == StepModel::<()>::Issue(BusOp::Read { addr: registers::P, count: 3 }));
    let (d5, r5) = mock_answer(d4, BusOp::Read { addr: registers::P, count: 3 });
    assert(r5->Read_0->Ok_0 =~= encoded);
    let (m5, s5) = pid_next(m4, r5);
    assert(s5 == StepModel::<()>::Finish(Ok(())));
}

} // verus!

verus! {

/// Runs a write plan against the simulated device from step `pos`, as a
/// `PlanRunner` carries it out: each step's operation is answered by the
/// device and must pass before the next one.
pub open spec fn plan_on_mock(plan: Seq<PlanModel>, pos: int, dev: MockModel) -> (
    StepModel<()>,
    MockModel,
)
    decreases plan.len() - pos,
{
    if pos < 0 || pos >= plan.len() {
        (StepModel::Finish(Ok(())), dev)
    } else {
        match plan[pos] {
            PlanModel::Abort(e) => (StepModel::Finish(Err(e)), dev),
            step => {
                let (dev2, reply) = mock_answer(dev, plan_op(step));
                if step_passes(step, reply) {
                    plan_on_mock(plan, pos + 1, dev2)
                } else {
                    (StepModel::Finish(Err(step_failure(step, reply))), dev2)
                }
            },
        }
    }
}

/// The registers after the segments of `segs` were written over `regs`.
pub open spec fn segments_written(regs: Map<u16, u16>, segs: Seq<(u16, u16)>) -> Map<u16, u16>
    decreases segs.len(),
{
    if segs.len() == 0 {
        regs
    } else {
        let i = segs.len() - 1;
        segments_written(regs, segs.drop_last()).insert(segment_base(i) as u16, segs.last().0).insert(
            (segment_base(i) + 1) as u16,
            segs.last().1,
        )
    }
}

/// The registers after the curve `segs` was downloaded over `regs`.
pub open spec fn curve_written(regs: Map<u16, u16>, segs: Seq<(u16, u16)>) -> Map<u16, u16> {
    segments_written(regs, segs).insert(registers::PNO, segs.len() as u16)
}

proof fn lemma_segments_written_holds(regs: Map<u16, u16>, segs: Seq<(u16, u16)>, j: int)
    requires
        0 <= j < segs.len() <= SEGMENT_MAX_COUNT,
    ensures
        register_value(segments_written(regs, segs), segment_base(j)) == segs[j].0,
        register_value(segments_written(regs, segs), segment_base(j) + 1) == segs[j].1,
    decreases segs.len(),
{
    if j < segs.len() - 1 {
        lemma_segments_written_holds(regs, segs.drop_last(), j);
    }
}

proof fn lemma_segment_phase(
    plan: Seq<PlanModel>,
    segs: Seq<(u16, u16)>,
    regs: Map<u16, u16>,
    dev: MockModel,
    i: int,
)
    requires
        plan == curve_plan(segs),
        segs.len() <= SEGMENT_MAX_COUNT,
        0 <= i <= segs.len(),
        readiness(dev) is Ok,
        dev.registers == segments_written(regs, segs.take(i)),
    ensures
        plan_on_mock(plan, 2 + 4 * i, dev) == plan_on_mock(
            plan,
            2 + 4 * segs.len() as int,
            MockModel { registers: segments_written(regs, segs), ..dev },
        ),
    decreases segs.len() - i,
{
    let n = segs.len() as int;
    lemma_segment_writes_len(segs);
    if i == n {
        assert(segs.take(i) =~= segs);
    } else {
        let a = segment_writes(segs);
        let (t, m) = segs[i];
        let base = segment_base(i);
        let block = segment_write_steps(i, segs[i]);
        lemma_segment_writes_index(segs, i, 0);
        lemma_segment_writes_index(segs, i, 1);
        lemma_segment_writes_index(segs, i, 2);
        lemma_segment_writes_index(segs, i, 3);
        assert(plan[2 + 4 * i] == a[4 * i + 0]);
        assert(plan[2 + 4 * i + 1] == a[4 * i + 1]);
        assert(plan[2 + 4 * i + 2] == a[4 * i + 2]);
        assert(plan[2 + 4 * i + 3] == a[4 * i + 3]);
        assert(plan[2 + 4 * i] == block[0]);
        assert(plan[2 + 4 * i + 1] == block[1]);
        assert(plan[2 + 4 * i + 2] == block[2]);
        assert(plan[2 + 4 * i + 3] == block[3]);
        let op0 = BusOp::Write { addr: base as u16, value: t };
        let dev1 = MockModel { registers: dev.registers.insert(base as u16, t), ..dev };
        assert(plan_op(plan[2 + 4 * i]) == op0);
        assert(plan_on_mock(plan, 2 + 4 * i, dev) == plan_on_mock(plan, 2 + 4 * i + 1, dev1));
        let dev2 = MockModel { registers: dev1.registers.insert((base + 1) as u16, m), ..dev };
        assert(plan_on_mock(plan, 2 + 4 * i + 1, dev1) == plan_on_mock(plan, 2 + 4 * i + 2, dev2));
        assert(plan_on_mock(plan, 2 + 4 * i + 2, dev2) == plan_on_mock(plan, 2 + 4 * i + 3, dev2));
        let read = mock_answer(dev2, BusOp::Read { addr: base as u16, count: 2 }).1;
        assert(read->Read_0->Ok_0 =~= seq![t, m]);
        assert(read_back_matches(read->Read_0->Ok_0, seq![t, m], false)) by {
            assert(read->Read_0->Ok_0.take(2) =~= seq![t, m]);
        }
        assert(plan_on_mock(plan, 2 + 4 * i + 3, dev2) == plan_on_mock(plan, 2 + 4 * (i + 1), dev2));
        assert(segs.take(i + 1).drop_last() =~= segs.take(i));
        assert(dev2.registers == segments_written(regs, segs.take(i + 1)));
        lemma_segment_phase(plan, segs, regs, dev2, i + 1);
    }
}

proof fn lemma_final_phase(plan: Seq<PlanModel>, segs: Seq<(u16, u16)>, regs: Map<u16, u16>, dev: MockModel, j: int)
    requires
        plan == curve_plan(segs),
        segs.len() <= SEGMENT_MAX_COUNT,
        0 <= j <= segs.len(),
        readiness(dev) is Ok,
        dev.registers == curve_written(regs, segs),
    ensures
        plan_on_mock(plan, 2 + 4 * segs.len() as int + j, dev) == (StepModel::<()>::Finish(Ok(())), dev),
    decreases segs.len() - j,
{
    let n = segs.len() as int;
    lemma_segment_writes_len(segs);
    lemma_final_checks_len(segs);
    if j < n {
        let (t, m) = segs[j];
        let base = segment_base(j);
        lemma_final_checks_index(segs, j);
        assert(plan[2 + 4 * n + j] == final_checks(segs)[j]);
        lemma_segments_written_holds(regs, segs, j);
        let read = mock_answer(dev, BusOp::Read { addr: base as u16, count: 2 }).1;
        assert(read->Read_0->Ok_0 =~= seq![t, m]);
        assert(read_back_matches(read->Read_0->Ok_0, seq![t, m], false)) by {
            assert(read->Read_0->Ok_0.take(2) =~= seq![t, m]);
        }
        assert(plan_on_mock(plan, 2 + 4 * n + j, dev) == plan_on_mock(plan, 2 + 4 * n + j + 1, dev));
        lemma_final_phase(plan, segs, regs, dev, j + 1);
    }
}

/// On a responsive device the curve plan commits: the count is written and
/// read back, every segment is written and read back, the final read-back
/// matches, and the device then holds the curve.
pub proof fn law_curve_plan_commits_on_responsive_device(dev: MockModel, segs: Seq<(u16, u16)>)
    requires
        readiness(dev) is Ok,
        segs.len() <= SEGMENT_MAX_COUNT,
    ensures
        plan_on_mock(curve_plan(segs), 0, dev) == (
            StepModel::<()>::Finish(Ok(())),
            MockModel { registers: curve_written(dev.registers, segs), ..dev },
        ),
{
    let plan = curve_plan(segs);
    let n = segs.len() as int;
    lemma_segment_writes_len(segs);
    lemma_final_checks_len(segs);
    let counted = MockModel { registers: dev.registers.insert(registers::PNO, n as u16), ..dev };
    assert(plan[0] == pno_steps(n)[0]);
    assert(plan[1] == pno_steps(n)[1]);
    assert(plan_on_mock(plan, 0, dev) == plan_on_mock(plan, 1, counted));
    let read = mock_answer(counted, BusOp::Read { addr: registers::PNO, count: 1 }).1;
    assert(read->Read_0->Ok_0 =~= seq![n as u16]);
    assert(read_back_matches(read->Read_0->Ok_0, seq![n as u16], false)) by {
        assert(read->Read_0->Ok_0.take(1) =~= seq![n as u16]);
    }
    assert(plan_on_mock(plan, 1, counted) == plan_on_mock(plan, 2, counted));
    assert(segs.take(0) =~= Seq::<(u16, u16)>::empty());
    lemma_segments_written_over_count(dev.registers, segs);
    lemma_segment_phase(plan, segs, counted.registers, counted, 0);
    let committed = MockModel { registers: curve_written(dev.registers, segs), ..dev };
    assert(segments_written(counted.registers, segs) == curve_written(dev.registers, segs));
    lemma_final_phase(plan, segs, dev.registers, committed, 0);
}

/// Writing the count first and the segments after it gives the same
/// registers as writing the segments first: their addresses differ.
proof fn lemma_segments_written_over_count(regs: Map<u16, u16>, segs: Seq<(u16, u16)>)
    requires
        segs.len() <= SEGMENT_MAX_COUNT,
    ensures
        segments_written(regs.insert(registers::PNO, segs.len() as u16), segs) == curve_written(
            regs,
            segs,
        ),
{
    lemma_segments_written_commute(regs, segs, segs.len() as u16);
}

proof fn lemma_segments_written_commute(regs: Map<u16, u16>, segs: Seq<(u16, u16)>, count: u16)
    requires
        segs.len() <= SEGMENT_MAX_COUNT,
    ensures
        segments_written(regs.insert(registers::PNO, count), segs) == segments_written(regs, segs).insert(
            registers::PNO,
            count,
        ),
    decreases segs.len(),
{
    if segs.len() > 0 {
        lemma_segments_written_commute(regs, segs.drop_last(), count);
        let i = segs.len() - 1;
        let before = segments_written(regs, segs.drop_last());
        assert(before.insert(registers::PNO, count).insert(segment_base(i) as u16, segs.last().0).insert(
            (segment_base(i) + 1) as u16,
            segs.last().1,
        ) =~= before.insert(segment_base(i) as u16, segs.last().0).insert(
            (segment_base(i) + 1) as u16,
            segs.last().1,
        ).insert(registers::PNO, count));
    }
}

/// Runs a curve read against the simulated device: answers `op`, hands the
/// reply to the reader, and goes on for at most `fuel` further operations.
pub open spec fn read_on_mock(m: CurveReadModel, dev: MockModel, op: BusOp, fuel: nat) -> StepModel<
    Seq<CurvePoint>,
>
    decreases fuel,
{
    let (dev2, reply) = mock_answer(dev, op);
    let (m2, step) = read_next(m, reply);
    match step {
        StepModel::Issue(next) => if fuel == 0 {
            step
        } else {
            read_on_mock(m2, dev2, next, (fuel - 1) as nat)
        },
        _ => step,
    }
}

/// The temperature and minutes registers a curve is downloaded as.
pub open spec fn point_pairs(points: Seq<CurvePoint>) -> Seq<(u16, u16)> {
    points.map_values(
        |p: CurvePoint|
            (register_of(p.temperature as int) as u16, register_of(p.minutes as int) as u16),
    )
}

/// A point the device stores unchanged and the curve read accepts.
pub open spec fn point_round_trips(p: CurvePoint, scale: ScaleConfig) -> bool {
    &&& point_valid(p, scale)
    &&& is_writable(p.temperature as int)
    &&& is_writable(p.minutes as int)
}

proof fn lemma_read_segments(
    points: Seq<CurvePoint>,
    scale: ScaleConfig,
    dev: MockModel,
    m: CurveReadModel,
    i: int,
)
    requires
        0 <= i < points.len() <= SEGMENT_MAX_COUNT,
        forall|k: int| 0 <= k < points.len() ==> point_round_trips(#[trigger] points[k], scale),
        readiness(dev) is Ok,
        forall|k: int|
            0 <= k < points.len() ==> register_value(dev.registers, #[trigger] segment_base(k))
                == point_pairs(points)[k].0 && register_value(dev.registers, segment_base(k) + 1)
                == point_pairs(points)[k].1,
        m == (CurveReadModel {
            phase: ReadPhase::Segment { index: i },
            scale,
            count: points.len() as int,
            points: points.take(i),
        }),
    ensures
        read_on_mock(m, dev, segment_read(i), (2 * (points.len() - i) - 1) as nat)
            == StepModel::Finish(Ok::<Seq<CurvePoint>, ErrorModel>(points)),
    decreases points.len() - i,
{
    let n = points.len() as int;
    let p = points[i];
    assert(point_round_trips(p, scale));
    law_written_value_reads_back(p.temperature as int);
    law_written_value_reads_back(p.minutes as int);
    let base = segment_base(i);
    assert(register_value(dev.registers, segment_base(i)) == point_pairs(points)[i].0);
    let (dev1, reply) = mock_answer(dev, segment_read(i));
    let values = reply->Read_0->Ok_0;
    assert(values.len() == 2);
    assert(values[0] == register_of(p.temperature as int) as u16);
    assert(values[1] == register_of(p.minutes as int) as u16);
    let (m1, s1) = read_next(m, reply);
    assert(points.take(i).push(p) =~= points.take(i + 1));
    assert(s1 == StepModel::<Seq<CurvePoint>>::Issue(BusOp::Pause));
    assert(m1 == CurveReadModel {
        phase: ReadPhase::Throttle { index: i, failure: None },
        points: points.take(i + 1),
        ..m
    });
    let f = (2 * (n - i) - 1) as nat;
    assert(read_on_mock(m, dev, segment_read(i), f) == read_on_mock(
        m1,
        dev1,
        BusOp::Pause,
        (f - 1) as nat,
    ));
    let (dev2, reply2) = mock_answer(dev1, BusOp::Pause);
    let (m2, s2) = read_next(m1, reply2);
    if i + 1 == n {
        assert(points.take(i + 1) =~= points);
        assert(s2 == StepModel::Finish(Ok::<Seq<CurvePoint>, ErrorModel>(points)));
    } else {
        assert(s2 == StepModel::<Seq<CurvePoint>>::Issue(segment_read(i + 1)));
        assert(read_on_mock(m1, dev1, BusOp::Pause, (f - 1) as nat) == read_on_mock(
            m2,
            dev2,
            segment_read(i + 1),
            (f - 2) as nat,
        ));
        lemma_read_segments(points, scale, dev2, m2, i + 1);
    }
}

/// The registers a device holds for a stored curve: the count in PNO and
/// each segment's registers at its place.
pub open spec fn holds_curve(dev: MockModel, segs: Seq<(u16, u16)>) -> bool {
    &&& register_value(dev.registers, registers::PNO as int) == segs.len()
    &&& forall|k: int|
        0 <= k < segs.len() ==> register_value(dev.registers, #[trigger] segment_base(k))
            == segs[k].0 && register_value(dev.registers, segment_base(k) + 1) == segs[k].1
}

/// The curve read from the start: waiting for the count.
pub open spec fn fresh_read(scale: ScaleConfig) -> CurveReadModel {
    CurveReadModel { phase: ReadPhase::Count, scale, count: 0, points: Seq::empty() }
}

/// Reading a device that holds the registers of `points` gives `points`.
proof fn lemma_read_stored_curve(dev: MockModel, points: Seq<CurvePoint>, scale: ScaleConfig)
    requires
        readiness(dev) is Ok,
        points.len() <= SEGMENT_MAX_COUNT,
        forall|k: int| 0 <= k < points.len() ==> point_round_trips(#[trigger] points[k], scale),
        holds_curve(dev, point_pairs(points)),
    ensures
        read_on_mock(
            fresh_read(scale),
            dev,
            BusOp::Read { addr: registers::PNO, count: 1 },
            (2 * points.len()) as nat,
        ) == StepModel::Finish(Ok::<Seq<CurvePoint>, ErrorModel>(points)),
{
    let n = points.len() as int;
    let m0 = fresh_read(scale);
    let (dev1, reply) = mock_answer(dev, BusOp::Read { addr: registers::PNO, count: 1 });
    assert(reply->Read_0->Ok_0 =~= seq![n as u16]);
    let (m1, s1) = read_next(m0, reply);
    if n == 0 {
        assert(points =~= Seq::<CurvePoint>::empty());
    } else {
        assert(points.take(0) =~= Seq::<CurvePoint>::empty());
        assert(s1 == StepModel::<Seq<CurvePoint>>::Issue(segment_read(0)));
        assert(read_on_mock(m0, dev, BusOp::Read { addr: registers::PNO, count: 1 }, (2 * n) as nat)
            == read_on_mock(m1, dev1, segment_read(0), (2 * n - 1) as nat));
        lemma_read_segments(points, scale, dev1, m1, 0);
    }
}

/// What a download leaves on a device holds the downloaded curve.
proof fn lemma_written_curve_is_held(regs: Map<u16, u16>, segs: Seq<(u16, u16)>, dev: MockModel)
    requires
        segs.len() <= SEGMENT_MAX_COUNT,
        dev.registers == curve_written(regs, segs),
    ensures
        holds_curve(dev, segs),
{
    assert forall|k: int| 0 <= k < segs.len() implies register_value(
        dev.registers,
        #[trigger] segment_base(k),
    ) == segs[k].0 && register_value(dev.registers, segment_base(k) + 1) == segs[k].1 by {
        lemma_segments_written_holds(regs, segs, k);
    }
}

/// A curve read after a committed download gives back the downloaded curve:
/// on a responsive device, downloading the registers of `points` succeeds,
/// and reading the curve from what the device then holds returns exactly
/// `points`, whatever curve (longer or shorter) it held before.
pub proof fn law_curve_round_trip_on_responsive_device(
    dev: MockModel,
    points: Seq<CurvePoint>,
    scale: ScaleConfig,
)
    requires
        readiness(dev) is Ok,
        points.len() <= SEGMENT_MAX_COUNT,
        forall|k: int| 0 <= k < points.len() ==> point_round_trips(#[trigger] points[k], scale),
    ensures
        ({
            let (result, after) = plan_on_mock(curve_plan(point_pairs(points)), 0, dev);
            &&& result == StepModel::<()>::Finish(Ok(()))
            &&& read_on_mock(
                fresh_read(scale),
                after,
                BusOp::Read { addr: registers::PNO, count: 1 },
                (2 * points.len()) as nat,
            ) == StepModel::Finish(Ok::<Seq<CurvePoint>, ErrorModel>(points))
        }),
{
    let segs = point_pairs(points);
    law_curve_plan_commits_on_responsive_device(dev, segs);
    let after = MockModel { registers: curve_written(dev.registers, segs), ..dev };
    lemma_written_curve_is_held(dev.registers, segs, after);
    lemma_read_stored_curve(after, points, scale);
}

/// Runs a curve download against the simulated device: answers `op`, hands
/// the reply to the download, and goes on for at most `fuel` further
/// operations; the result is the last step and the device after it.
pub open spec fn curve_on_mock(m: CurveModel, dev: MockModel, op: BusOp, fuel: nat) -> (
    StepModel<()>,
    MockModel,
)
    decreases fuel,
{
    let (dev2, reply) = mock_answer(dev, op);
    let (m2, step) = curve_next(m, reply);
    match step {
        StepModel::Issue(next) => if fuel == 0 {
            (step, dev2)
        } else {
            curve_on_mock(m2, dev2, next, (fuel - 1) as nat)
        },
        _ => (step, dev2),
    }
}

/// The download of `segs` from its start: reading the backup.
pub open spec fn fresh_download(scale: ScaleConfig, segs: Seq<(u16, u16)>) -> CurveModel {
    CurveModel {
        phase: CurvePhase::Backup { reader: fresh_read(scale) },
        scale,
        encoded: segs,
        backup: Seq::empty(),
        pos: 0,
    }
}

/// More fuel does not change a download that has finished.
proof fn lemma_curve_fuel(m: CurveModel, dev: MockModel, op: BusOp, f: nat, g: nat)
    requires
        f <= g,
        curve_on_mock(m, dev, op, f).0 is Finish,
    ensures
        curve_on_mock(m, dev, op, g) == curve_on_mock(m, dev, op, f),
    decreases f,
{
    let (dev2, reply) = mock_answer(dev, op);
    let (m2, step) = curve_next(m, reply);
    if step is Issue {
        lemma_curve_fuel(m2, dev2, step->Issue_0, (f - 1) as nat, (g - 1) as nat);
    }
}

/// While the backup is read, the download answers as the curve read does;
/// once the read gives the backup, the download goes on with the new curve.
proof fn lemma_backup_phase(
    m: CurveModel,
    dev: MockModel,
    op: BusOp,
    f: nat,
    pts: Seq<CurvePoint>,
    rest: nat,
)
    requires
        m.phase is Backup,
        !(op is Write),
        read_on_mock(m.phase->reader, dev, op, f) == StepModel::Finish(
            Ok::<Seq<CurvePoint>, ErrorModel>(pts),
        ),
        backup_registers(pts, m.scale) is Ok,
        plan_launch(curve_plan(m.encoded), 0) is Issue,
        curve_on_mock(
            CurveModel {
                phase: CurvePhase::Forward,
                backup: backup_registers(pts, m.scale)->Ok_0,
                pos: 0,
                ..m
            },
            dev,
            plan_launch(curve_plan(m.encoded), 0)->Issue_0,
            rest,
        ).0 is Finish,
    ensures
        curve_on_mock(m, dev, op, f + 1 + rest) == curve_on_mock(
            CurveModel {
                phase: CurvePhase::Forward,
                backup: backup_registers(pts, m.scale)->Ok_0,
                pos: 0,
                ..m
            },
            dev,
            plan_launch(curve_plan(m.encoded), 0)->Issue_0,
            rest,
        ),
    decreases f,
{
    let forward = CurveModel {
        phase: CurvePhase::Forward,
        backup: backup_registers(pts, m.scale)->Ok_0,
        pos: 0,
        ..m
    };
    let first = plan_launch(curve_plan(m.encoded), 0)->Issue_0;
    let reader = m.phase->reader;
    let (dev2, reply) = mock_answer(dev, op);
    assert(dev2 == dev);
    let (r2, s) = read_next(reader, reply);
    match s {
        StepModel::Issue(next) => {
            assert(f > 0);
            let m2 = CurveModel { phase: CurvePhase::Backup { reader: r2 }, ..m };
            assert(curve_next(m, reply) == (m2, StepModel::<()>::Issue(next)));
            assert(!(next is Write));
            lemma_backup_phase(m2, dev, next, (f - 1) as nat, pts, rest);
        },
        StepModel::Finish(r) => {
            assert(r == Ok::<Seq<CurvePoint>, ErrorModel>(pts));
            assert(curve_next(m, reply) == (forward, StepModel::<()>::Issue(first)));
            lemma_curve_fuel(forward, dev, first, rest, f + rest);
        },
    }
}

/// From position `p` on, the new curve's plan runs in the download as it
/// runs on its own; when the plan succeeds, so does the download.
proof fn lemma_forward_phase(m: CurveModel, dev: MockModel, after: MockModel, p: int)
    requires
        m.phase is Forward,
        m.pos == p,
        0 <= p < curve_plan(m.encoded).len(),
        !(curve_plan(m.encoded)[p] is Abort),
        plan_on_mock(curve_plan(m.encoded), p, dev) == (StepModel::<()>::Finish(Ok(())), after),
    ensures
        curve_on_mock(
            m,
            dev,
            plan_op(curve_plan(m.encoded)[p]),
            (curve_plan(m.encoded).len() - 1 - p) as nat,
        ) == (StepModel::<()>::Finish(Ok(())), after),
    decreases curve_plan(m.encoded).len() - p,
{
    let plan = curve_plan(m.encoded);
    let step = plan[p];
    let (dev2, reply) = mock_answer(dev, plan_op(step));
    assert(step_passes(step, reply));
    assert(plan_on_mock(plan, p, dev) == plan_on_mock(plan, p + 1, dev2));
    if p + 1 < plan.len() {
        assert(!(plan[p + 1] is Abort));
        let m2 = CurveModel { pos: p + 1, ..m };
        assert(curve_next(m, reply) == (m2, StepModel::<()>::Issue(plan_op(plan[p + 1]))));
        lemma_forward_phase(m2, dev2, after, p + 1);
    }
}

/// A download on a responsive device holding a readable curve `old` commits
/// the new curve `points`: the download reads the backup, writes and
/// verifies the new curve, succeeds, and leaves the device holding what a
/// committed download writes; a curve read then gives back `points`.
pub proof fn law_curve_download_round_trip_on_responsive_device(
    dev: MockModel,
    old: Seq<CurvePoint>,
    points: Seq<CurvePoint>,
    scale: ScaleConfig,
)
    requires
        readiness(dev) is Ok,
        old.len() <= SEGMENT_MAX_COUNT,
        forall|k: int| 0 <= k < old.len() ==> point_round_trips(#[trigger] old[k], scale),
        holds_curve(dev, point_pairs(old)),
        backup_registers(old, scale) is Ok,
        points.len() <= SEGMENT_MAX_COUNT,
        forall|k: int| 0 <= k < points.len() ==> point_round_trips(#[trigger] points[k], scale),
    ensures
        ({
            let (result, after) = curve_on_mock(
                fresh_download(scale, point_pairs(points)),
                dev,
                BusOp::Read { addr: registers::PNO, count: 1 },
                (2 * old.len() + 2 + 5 * points.len()) as nat,
            );
            &&& result == StepModel::<()>::Finish(Ok(()))
            &&& after == (MockModel {
                registers: curve_written(dev.registers, point_pairs(points)),
                ..dev
            })
            &&& read_on_mock(
                fresh_read(scale),
                after,
                BusOp::Read { addr: registers::PNO, count: 1 },
                (2 * points.len()) as nat,
            ) == StepModel::Finish(Ok::<Seq<CurvePoint>, ErrorModel>(points))
        }),
{
    let segs = point_pairs(points);
    let plan = curve_plan(segs);
    let n = points.len() as int;
    lemma_segment_writes_len(segs);
    lemma_final_checks_len(segs);
    assert(plan.len() == 2 + 5 * n);
    assert(plan[0] == pno_steps(n)[0]);
    let start = fresh_download(scale, segs);
    let bk = backup_registers(old, scale)->Ok_0;
    let forward = CurveModel { phase: CurvePhase::Forward, backup: bk, pos: 0, ..start };
    let first = plan_op(plan[0]);
    assert(plan_launch(plan, 0) == StepModel::<()>::Issue(first));
    law_curve_plan_commits_on_responsive_device(dev, segs);
    let after = MockModel { registers: curve_written(dev.registers, segs), ..dev };
    lemma_forward_phase(forward, dev, after, 0);
    lemma_read_stored_curve(dev, old, scale);
    lemma_backup_phase(
        start,
        dev,
        BusOp::Read { addr: registers::PNO, count: 1 },
        (2 * old.len()) as nat,
        old,
        (plan.len() - 1) as nat,
    );
    lemma_written_curve_is_held(dev.registers, segs, after);
    lemma_read_stored_curve(after, points, scale);
}

} // verus!
